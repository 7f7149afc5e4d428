use vstd::prelude::*;

use crate::error::OsdError;
use crate::parse::{
    find_byte_from, lemma_find_byte_from_bounds, lemma_find_byte_from_found, trimmed,
    trimmed_slice,
};

verus! {

/// The configuration of the tool, with its one recognized key.
#[derive(Clone, Copy, Debug, PartialEq, Eq, Structural)]
pub struct Config {
    pub extended_volume: bool,
}

impl Default for Config {
    /// Extended volume is off by default.
    fn default() -> (c: Self)
        ensures
            !c.extended_volume,
    {
        Config { extended_volume: false }
    }
}

/// The recognized key, byte for byte: `extended_volume`.
pub open spec fn config_key() -> Seq<u8> {
    seq![101u8, 120u8, 116u8, 101u8, 110u8, 100u8, 101u8, 100u8, 95u8, 118u8, 111u8, 108u8, 117u8, 109u8, 101u8]
}

/// The literal `true`, byte for byte.
pub open spec fn true_bytes() -> Seq<u8> {
    seq![116u8, 114u8, 117u8, 101u8]
}

/// The literal `false`, byte for byte.
pub open spec fn false_bytes() -> Seq<u8> {
    seq![102u8, 97u8, 108u8, 115u8, 101u8]
}

pub open spec fn bool_bytes(b: bool) -> Seq<u8> {
    if b {
        true_bytes()
    } else {
        false_bytes()
    }
}

/// What one config line means.
#[derive(Clone, Copy, Debug, PartialEq, Eq, Structural)]
pub enum LineKind {
    /// Blank, a comment, or an unrecognized `key = value` binding.
    Skip,
    /// A binding of the recognized key to a boolean.
    Bind(bool),
    /// Not a binding at all, or the recognized key with a value that is
    /// not a boolean.
    Bad,
}

/// Reading of one line of the config document. A line is trimmed; blank
/// lines and `#` comments say nothing, as does a binding of an
/// unrecognized key; a binding of `extended_volume` must have `true` or
/// `false` on the right of the `=`; anything else is malformed.
pub open spec fn line_kind(line: Seq<u8>) -> LineKind {
    let t = trimmed(line);
    if t.len() == 0 {
        LineKind::Skip
    } else if t[0] == 35 {
        LineKind::Skip
    } else {
        let e = find_byte_from(t, 61, 0);
        if e >= t.len() {
            LineKind::Bad
        } else {
            let key = trimmed(t.subrange(0, e as int));
            let value = trimmed(t.subrange((e + 1) as int, t.len() as int));
            if key == config_key() {
                if value == true_bytes() {
                    LineKind::Bind(true)
                } else if value == false_bytes() {
                    LineKind::Bind(false)
                } else {
                    LineKind::Bad
                }
            } else {
                LineKind::Skip
            }
        }
    }
}

/// Reading of the document from byte `i` on, line by line, carrying the
/// last value bound to the recognized key. `None` stands for a document
/// that is malformed or never binds the key.
pub open spec fn config_value_from(s: Seq<u8>, i: nat, acc: Option<bool>) -> Option<bool>
    decreases s.len() - i,
    via config_value_from_decreases
{
    if i >= s.len() {
        acc
    } else {
        let e = find_byte_from(s, 10, i);
        let line = s.subrange(i as int, e as int);
        let nxt = if e < s.len() {
            (e + 1) as nat
        } else {
            s.len()
        };
        match line_kind(line) {
            LineKind::Bad => None,
            LineKind::Skip => config_value_from(s, nxt, acc),
            LineKind::Bind(b) => config_value_from(s, nxt, Some(b)),
        }
    }
}

#[via_fn]
proof fn config_value_from_decreases(s: Seq<u8>, i: nat, acc: Option<bool>) {
    if i < s.len() {
        lemma_find_byte_from_bounds(s, 10, i);
    }
}

/// The value the whole document binds `extended_volume` to, or `None`
/// where the document is malformed or silent.
pub open spec fn config_value_spec(s: Seq<u8>) -> Option<bool> {
    config_value_from(s, 0, None)
}

/// The document the library writes for a configuration: one line,
/// `extended_volume = <value>`, newline-terminated.
pub open spec fn encode_config_spec(c: Config) -> Seq<u8> {
    config_key() + seq![32u8, 61u8, 32u8] + bool_bytes(c.extended_volume) + seq![10u8]
}

/// Whether `key` holds exactly the recognized key.
fn is_config_key(key: &[u8]) -> (r: bool)
    ensures
        r == (key@ == config_key()),
{
    if key.len() != 15 {
        return false;
    }
    let r = key[0] == 101 && key[1] == 120 && key[2] == 116 && key[3] == 101 && key[4] == 110
        && key[5] == 100 && key[6] == 101 && key[7] == 100 && key[8] == 95 && key[9] == 118
        && key[10] == 111 && key[11] == 108 && key[12] == 117 && key[13] == 109 && key[14] == 101;
    proof {
        if r {
            assert(key@ =~= config_key());
        }
    }
    r
}

/// Whether `value` holds exactly the literal `true`.
fn is_true_bytes(value: &[u8]) -> (r: bool)
    ensures
        r == (value@ == true_bytes()),
{
    if value.len() != 4 {
        return false;
    }
    let r = value[0] == 116 && value[1] == 114 && value[2] == 117 && value[3] == 101;
    proof {
        if r {
            assert(value@ =~= true_bytes());
        }
    }
    r
}

/// Whether `value` holds exactly the literal `false`.
fn is_false_bytes(value: &[u8]) -> (r: bool)
    ensures
        r == (value@ == false_bytes()),
{
    if value.len() != 5 {
        return false;
    }
    let r = value[0] == 102 && value[1] == 97 && value[2] == 108 && value[3] == 115
        && value[4] == 101;
    proof {
        if r {
            assert(value@ =~= false_bytes());
        }
    }
    r
}

/// Reads one line of the document.
fn classify_line(line: &[u8]) -> (k: LineKind)
    ensures
        k == line_kind(line@),
{
    let t = trimmed_slice(line);
    let n: usize = t.len();
    if n == 0 {
        return LineKind::Skip;
    }
    if t[0] == 35 {
        return LineKind::Skip;
    }
    let mut e: usize = 0;
    while e < n && t[e] != 61
        invariant
            e <= n,
            n == t@.len(),
            find_byte_from(t@, 61, 0) == find_byte_from(t@, 61, e as nat),
        decreases n - e,
    {
        proof {
            assert(find_byte_from(t@, 61, e as nat) == find_byte_from(t@, 61, (e + 1) as nat));
        }
        e = e + 1;
    }
    proof {
        assert(find_byte_from(t@, 61, e as nat) == e);
    }
    if e == n {
        return LineKind::Bad;
    }
    let key = trimmed_slice(vstd::slice::slice_subrange(t, 0, e));
    let value = trimmed_slice(vstd::slice::slice_subrange(t, e + 1, n));
    if is_config_key(key) {
        if is_true_bytes(value) {
            LineKind::Bind(true)
        } else if is_false_bytes(value) {
            LineKind::Bind(false)
        } else {
            LineKind::Bad
        }
    } else {
        LineKind::Skip
    }
}

/// Reads a config document; `ConfigError` exactly when the document is
/// malformed or never binds the recognized key.
pub fn parse_config(bytes: &[u8]) -> (r: Result<Config, OsdError>)
    ensures
        match r {
            Ok(c) => config_value_spec(bytes@) == Some(c.extended_volume),
            Err(e) => config_value_spec(bytes@) is None && e == OsdError::ConfigError,
        },
{
    let n: usize = bytes.len();
    let mut i: usize = 0;
    let mut acc: Option<bool> = None;
    while i < n
        invariant
            i <= n,
            n == bytes@.len(),
            config_value_spec(bytes@) == config_value_from(bytes@, i as nat, acc),
        decreases n - i,
    {
        let mut e: usize = i;
        while e < n && bytes[e] != 10
            invariant
                i <= e <= n,
                n == bytes@.len(),
                find_byte_from(bytes@, 10, i as nat) == find_byte_from(bytes@, 10, e as nat),
            decreases n - e,
        {
            proof {
                assert(find_byte_from(bytes@, 10, e as nat)
                    == find_byte_from(bytes@, 10, (e + 1) as nat));
            }
            e = e + 1;
        }
        proof {
            assert(find_byte_from(bytes@, 10, e as nat) == e);
        }
        let line = vstd::slice::slice_subrange(bytes, i, e);
        let nxt: usize = if e < n {
            e + 1
        } else {
            n
        };
        match classify_line(line) {
            LineKind::Bad => {
                proof {
                    assert(config_value_from(bytes@, i as nat, acc) is None);
                }
                return Err(OsdError::ConfigError);
            }
            LineKind::Skip => {
                proof {
                    assert(config_value_from(bytes@, i as nat, acc)
                        == config_value_from(bytes@, nxt as nat, acc));
                }
            }
            LineKind::Bind(b) => {
                proof {
                    assert(config_value_from(bytes@, i as nat, acc)
                        == config_value_from(bytes@, nxt as nat, Some(b)));
                }
                acc = Some(b);
            }
        }
        i = nxt;
    }
    match acc {
        Some(b) => Ok(Config { extended_volume: b }),
        None => Err(OsdError::ConfigError),
    }
}

/// Writes the config document for `c`.
pub fn encode_config(c: &Config) -> (out: Vec<u8>)
    ensures
        out@ == encode_config_spec(*c),
{
    let mut out: Vec<u8> = Vec::new();
    out.push(101);
    out.push(120);
    out.push(116);
    out.push(101);
    out.push(110);
    out.push(100);
    out.push(101);
    out.push(100);
    out.push(95);
    out.push(118);
    out.push(111);
    out.push(108);
    out.push(117);
    out.push(109);
    out.push(101);
    out.push(32);
    out.push(61);
    out.push(32);
    if c.extended_volume {
        out.push(116);
        out.push(114);
        out.push(117);
        out.push(101);
    } else {
        out.push(102);
        out.push(97);
        out.push(108);
        out.push(115);
        out.push(101);
    }
    out.push(10);
    proof {
        assert(out@ =~= encode_config_spec(*c));
    }
    out
}

/// Writing a configuration and reading the document back yields the
/// same `extended_volume` value, for either value of the flag.
pub proof fn lemma_config_round_trip(c: Config)
    ensures
        config_value_spec(encode_config_spec(c)) == Some(c.extended_volume),
{
    let s = encode_config_spec(c);
    let v = c.extended_volume;
    let linelen: int = if v { 22 } else { 23 };
    assert(s.len() == linelen + 1);
    // The single newline stands at the end of the one line.
    assert(s[linelen] == 10);
    assert(forall|j: int| 0 <= j < linelen ==> s[j] != 10);
    lemma_find_byte_from_found(s, 10, 0, linelen as nat);
    let line = s.subrange(0, linelen);
    // The line carries no surrounding whitespace.
    assert(trimmed(line) =~= line);
    let t = trimmed(line);
    assert(t[0] == 101);
    // The `=` stands right after the key and its one space.
    assert(t[16] == 61);
    assert(forall|j: int| 0 <= j < 16 ==> t[j] != 61);
    lemma_find_byte_from_found(t, 61, 0, 16);
    let key_part = t.subrange(0, 16);
    assert(key_part[0] == 101 && !crate::parse::is_ascii_ws(101u8));
    assert(crate::parse::ws_run_end(key_part, 0) == 0);
    assert(key_part[15] == 32 && key_part[14] == 101);
    assert(crate::parse::ws_run_start(key_part, 16) == crate::parse::ws_run_start(key_part, 15));
    assert(crate::parse::ws_run_start(key_part, 15) == 15);
    assert(trimmed(key_part) =~= config_key());
    let value_part = t.subrange(17, t.len() as int);
    assert(value_part[0] == 32);
    assert(crate::parse::ws_run_end(value_part, 0) == crate::parse::ws_run_end(value_part, 1));
    assert(value_part[1] == (if v { 116u8 } else { 102u8 }));
    assert(crate::parse::ws_run_end(value_part, 1) == 1);
    assert(value_part[value_part.len() - 1] == 101);
    assert(crate::parse::ws_run_start(value_part, value_part.len() as nat)
        == value_part.len());
    assert(trimmed(value_part) =~= bool_bytes(v));
    assert(line_kind(line) == LineKind::Bind(v));
    assert(config_value_from(s, (linelen + 1) as nat, Some(v)) == Some(v));
}

} // verus!
