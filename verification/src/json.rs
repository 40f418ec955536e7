//! Rendering of the build-info artifact.
//!
//! The output file format is the one bit-exact contract of this crate: a
//! pretty-printed JSON object with exactly the keys `revision` and
//! `build_time`, two-space indentation, and UTF-8 text. The spec functions
//! here define that byte sequence mathematically; the exec functions produce
//! it and are proved to match.

use vstd::prelude::*;
use vstd::string::StrSliceExecFns;
use vstd::string::StringExecFns;

verus! {

/// The character for a digit value below 16, lower case, as JSON uses in
/// `\u00..` escapes and as decimal rendering uses for values below 10.
pub open spec fn spec_digit(d: nat) -> char
    recommends
        d < 16,
{
    if d == 0 {
        '0'
    } else if d == 1 {
        '1'
    } else if d == 2 {
        '2'
    } else if d == 3 {
        '3'
    } else if d == 4 {
        '4'
    } else if d == 5 {
        '5'
    } else if d == 6 {
        '6'
    } else if d == 7 {
        '7'
    } else if d == 8 {
        '8'
    } else if d == 9 {
        '9'
    } else if d == 10 {
        'a'
    } else if d == 11 {
        'b'
    } else if d == 12 {
        'c'
    } else if d == 13 {
        'd'
    } else if d == 14 {
        'e'
    } else {
        'f'
    }
}

/// Decimal rendering of a natural number: most significant digit first,
/// no sign, no leading zeros (a single `0` for zero itself).
pub open spec fn spec_decimal_nat(n: nat) -> Seq<char>
    decreases n,
{
    if n < 10 {
        seq![spec_digit(n)]
    } else {
        spec_decimal_nat(n / 10) + seq![spec_digit(n % 10)]
    }
}

/// Decimal rendering of an integer: a leading `-` for negative values,
/// then the magnitude's digits.
pub open spec fn spec_decimal_int(v: int) -> Seq<char> {
    if v < 0 {
        seq!['-'] + spec_decimal_nat((-v) as nat)
    } else {
        spec_decimal_nat(v as nat)
    }
}

/// JSON escaping of one character inside a string value: `"` and `\` get a
/// backslash, the control characters with short escapes use them, every other
/// control character below space becomes `\u00` and two lower-case hex
/// digits, and everything else stands for itself.
pub open spec fn spec_escaped_char(c: char) -> Seq<char> {
    if c == '"' {
        seq!['\\', '"']
    } else if c == '\\' {
        seq!['\\', '\\']
    } else if c == '\u{8}' {
        seq!['\\', 'b']
    } else if c == '\t' {
        seq!['\\', 't']
    } else if c == '\n' {
        seq!['\\', 'n']
    } else if c == '\u{c}' {
        seq!['\\', 'f']
    } else if c == '\r' {
        seq!['\\', 'r']
    } else if (c as u32) < 0x20 {
        seq!['\\', 'u', '0', '0', spec_digit((c as u32 / 16) as nat), spec_digit(
            (c as u32 % 16) as nat,
        )]
    } else {
        seq![c]
    }
}

/// JSON escaping of a whole string value, character by character.
pub open spec fn spec_json_escaped(s: Seq<char>) -> Seq<char>
    decreases s.len(),
{
    if s.len() == 0 {
        Seq::empty()
    } else {
        spec_json_escaped(s.drop_last()) + spec_escaped_char(s.last())
    }
}

/// Everything of the artifact that precedes the build-time digits: the
/// object opener, the `revision` key, and the escaped revision value up to
/// and including the `build_time` key and its separator.
pub open spec fn spec_artifact_head(revision: Seq<char>) -> Seq<char> {
    "{\n  \"revision\": \""@ + spec_json_escaped(revision) + "\",\n  \"build_time\": "@
}

/// The complete build-info artifact for a revision and a build time.
pub open spec fn spec_build_info_json(revision: Seq<char>, build_time: int) -> Seq<char> {
    spec_artifact_head(revision) + spec_decimal_int(build_time) + "\n}"@
}

/// Law: JSON escaping leaves a string unchanged when no character of it
/// needs an escape, that is, when every character is at least the space
/// character and is neither `"` nor `\`. Short revision identifiers are
/// lower-case hexadecimal, so the artifact carries them byte for byte.
pub proof fn lemma_escape_identity(s: Seq<char>)
    requires
        forall|i: int| 0 <= i < s.len() ==> (s[i] as u32) >= 0x20 && s[i] != '"' && s[i] != '\\',
    ensures
        spec_json_escaped(s) == s,
    decreases s.len(),
{
    if s.len() == 0 {
        assert(spec_json_escaped(s) =~= s);
    } else {
        lemma_escape_identity(s.drop_last());
        assert(spec_escaped_char(s.last()) == seq![s.last()]);
        assert(s.drop_last() + seq![s.last()] =~= s);
    }
}

/// Law (idempotence of shape): two artifacts rendered from the same revision
/// agree byte for byte on everything up to the build-time digits — in
/// particular on the revision bytes — and end in the same closing bytes;
/// with equal build times the whole artifacts are byte-identical. Only the
/// captured timestamps, which never decrease on a well-behaved clock, may
/// differ between two runs against an unchanged repository.
pub proof fn lemma_rerun_artifact_shape(revision: Seq<char>, t1: int, t2: int)
    ensures
        spec_build_info_json(revision, t1).subrange(0, spec_artifact_head(revision).len() as int)
            == spec_build_info_json(revision, t2).subrange(
            0,
            spec_artifact_head(revision).len() as int,
        ),
        spec_build_info_json(revision, t1).subrange(0, spec_artifact_head(revision).len() as int)
            == spec_artifact_head(revision),
        spec_build_info_json(revision, t1).skip(
            spec_build_info_json(revision, t1).len() - 2,
        ) == "\n}"@,
        spec_build_info_json(revision, t2).skip(
            spec_build_info_json(revision, t2).len() - 2,
        ) == "\n}"@,
        t1 == t2 ==> spec_build_info_json(revision, t1) == spec_build_info_json(revision, t2),
{
    assert(spec_build_info_json(revision, t1).subrange(
        0,
        spec_artifact_head(revision).len() as int,
    ) =~= spec_artifact_head(revision));
    assert(spec_build_info_json(revision, t2).subrange(
        0,
        spec_artifact_head(revision).len() as int,
    ) =~= spec_artifact_head(revision));
    assert(spec_build_info_json(revision, t1).skip(spec_build_info_json(revision, t1).len() - 2)
        =~= "\n}"@) by {
        reveal_strlit("\n}");
    }
    assert(spec_build_info_json(revision, t2).skip(spec_build_info_json(revision, t2).len() - 2)
        =~= "\n}"@) by {
        reveal_strlit("\n}");
    }
}

/// Appends the character for a digit value below 16.
fn append_digit(out: &mut String, d: usize)
    requires
        d < 16,
    ensures
        final(out)@ == old(out)@ + seq![spec_digit(d as nat)],
{
    let digits = "0123456789abcdef";
    proof {
        reveal_strlit("0123456789abcdef");
    }
    let piece = digits.substring_char(d, d + 1);
    proof {
        assert(digits@.subrange(d as int, (d + 1) as int) =~= seq![digits@[d as int]]);
        assert(digits@[d as int] == spec_digit(d as nat));
    }
    out.append(piece);
}

/// Appends the decimal digits of `n`, most significant first.
fn append_decimal_u64(out: &mut String, n: u64)
    ensures
        final(out)@ == old(out)@ + spec_decimal_nat(n as nat),
    decreases n,
{
    if n < 10 {
        append_digit(out, n as usize);
    } else {
        append_decimal_u64(out, n / 10);
        append_digit(out, (n % 10) as usize);
        proof {
            assert(old(out)@ + spec_decimal_nat((n / 10) as nat) + seq![spec_digit(
                (n % 10) as nat,
            )] =~= old(out)@ + spec_decimal_nat(n as nat));
        }
    }
}

/// Appends the decimal rendering of `v`, with a leading `-` when negative.
pub fn append_decimal_i64(out: &mut String, v: i64)
    ensures
        final(out)@ == old(out)@ + spec_decimal_int(v as int),
{
    if v >= 0 {
        append_decimal_u64(out, v as u64);
    } else {
        proof {
            reveal_strlit("-");
            assert(("-")@ =~= seq!['-']);
        }
        out.append("-");
        let mag: u64 = if v == i64::MIN {
            9223372036854775808u64
        } else {
            (-v) as u64
        };
        append_decimal_u64(out, mag);
        proof {
            assert(old(out)@ + seq!['-'] + spec_decimal_nat(mag as nat) =~= old(out)@
                + spec_decimal_int(v as int));
        }
    }
}

/// Appends `s` with JSON string escaping applied.
pub fn append_json_escaped(out: &mut String, s: &str)
    ensures
        final(out)@ == old(out)@ + spec_json_escaped(s@),
{
    let len = s.unicode_len();
    let mut i: usize = 0;
    while i < len
        invariant
            i <= len,
            len == s@.len(),
            out@ == old(out)@ + spec_json_escaped(s@.subrange(0, i as int)),
        decreases len - i,
    {
        let c = s.get_char(i);
        if c == '"' {
            proof {
                reveal_strlit("\\\"");
                assert(("\\\"")@ =~= seq!['\\', '"']);
            }
            out.append("\\\"");
        } else if c == '\\' {
            proof {
                reveal_strlit("\\\\");
                assert(("\\\\")@ =~= seq!['\\', '\\']);
            }
            out.append("\\\\");
        } else if c == '\u{8}' {
            proof {
                reveal_strlit("\\b");
                assert(("\\b")@ =~= seq!['\\', 'b']);
            }
            out.append("\\b");
        } else if c == '\t' {
            proof {
                reveal_strlit("\\t");
                assert(("\\t")@ =~= seq!['\\', 't']);
            }
            out.append("\\t");
        } else if c == '\n' {
            proof {
                reveal_strlit("\\n");
                assert(("\\n")@ =~= seq!['\\', 'n']);
            }
            out.append("\\n");
        } else if c == '\u{c}' {
            proof {
                reveal_strlit("\\f");
                assert(("\\f")@ =~= seq!['\\', 'f']);
            }
            out.append("\\f");
        } else if c == '\r' {
            proof {
                reveal_strlit("\\r");
                assert(("\\r")@ =~= seq!['\\', 'r']);
            }
            out.append("\\r");
        } else if (c as u32) < 0x20 {
            proof {
                reveal_strlit("\\u00");
                assert(("\\u00")@ =~= seq!['\\', 'u', '0', '0']);
            }
            out.append("\\u00");
            let cu = c as u32;
            append_digit(out, (cu / 16) as usize);
            append_digit(out, (cu % 16) as usize);
            proof {
                assert(("\\u00")@ + seq![spec_digit((c as u32 / 16) as nat)] + seq![spec_digit(
                    (c as u32 % 16) as nat,
                )] =~= spec_escaped_char(c));
            }
        } else {
            let piece = s.substring_char(i, i + 1);
            proof {
                assert(s@.subrange(i as int, (i + 1) as int) =~= seq![s@[i as int]]);
            }
            out.append(piece);
        }
        proof {
            assert(s@.subrange(0, (i + 1) as int).drop_last() =~= s@.subrange(0, i as int));
            assert(s@.subrange(0, (i + 1) as int).last() == s@[i as int]);
            assert(out@ =~= old(out)@ + spec_json_escaped(s@.subrange(0, (i + 1) as int)));
        }
        i = i + 1;
    }
    proof {
        assert(s@.subrange(0, len as int) =~= s@);
    }
}

/// Renders the complete artifact text for a revision and a build time.
pub fn render_build_info_json(revision: &str, build_time: i64) -> (out: String)
    ensures
        out@ == spec_build_info_json(revision@, build_time as int),
{
    let mut out = String::new();
    out.append("{\n  \"revision\": \"");
    append_json_escaped(&mut out, revision);
    out.append("\",\n  \"build_time\": ");
    append_decimal_i64(&mut out, build_time);
    out.append("\n}");
    proof {
        assert(out@ =~= spec_build_info_json(revision@, build_time as int));
    }
    out
}

} // verus!
