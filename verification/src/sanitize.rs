//! The output sanitizer: takes terminal escape sequences and control bytes
//! out of a line of program output, so that it can be shown as it is.

use crate::text::{from_chars, to_chars, trim, trim_chars};
use vstd::prelude::*;
use vstd::utf8::{decode_utf8, encode_utf8, valid_utf8};
use vstd::string::StringSliceAdditionalSpecFns;

verus! {

/// The escape byte, which opens an escape sequence.
pub const ESC: u8 = 0x1b;

/// The bell byte, which closes an operating system command.
pub const BEL: u8 = 0x07;

/// Where the sanitizer stands in its input.
#[derive(Clone, Copy, PartialEq, Eq, Debug, Structural)]
pub enum Mode {
    /// In plain text.
    Ground,
    /// Right after an escape byte.
    Escape,
    /// Inside a control sequence (`ESC [`), before its final byte.
    Csi,
    /// Inside an operating system command (`ESC ]`), before its terminator.
    Osc,
    /// Inside an operating system command, right after an escape byte.
    OscEscape,
}

/// An ASCII control byte.
pub open spec fn is_control(b: u8) -> bool {
    b < 0x20 || b == 0x7f
}

/// A byte that ends a control sequence.
pub open spec fn is_csi_final(b: u8) -> bool {
    0x40 <= b <= 0x7e
}

/// The mode after the byte `b` is read in `mode`.
pub open spec fn next_mode(mode: Mode, b: u8) -> Mode {
    match mode {
        Mode::Ground => if b == ESC {
            Mode::Escape
        } else {
            Mode::Ground
        },
        Mode::Escape => if b == 0x5b {
            Mode::Csi
        } else if b == 0x5d {
            Mode::Osc
        } else {
            Mode::Ground
        },
        Mode::Csi => if is_csi_final(b) {
            Mode::Ground
        } else {
            Mode::Csi
        },
        Mode::Osc => if b == BEL {
            Mode::Ground
        } else if b == ESC {
            Mode::OscEscape
        } else {
            Mode::Osc
        },
        Mode::OscEscape => if b == 0x5c || b == BEL {
            Mode::Ground
        } else if b == ESC {
            Mode::OscEscape
        } else {
            Mode::Osc
        },
    }
}

/// Whether the byte `b`, read in `mode`, is kept.
pub open spec fn keeps(mode: Mode, b: u8) -> bool {
    mode == Mode::Ground && !is_control(b)
}

/// What is kept of `s` when reading starts in `mode`.
pub open spec fn strip_from(mode: Mode, s: Seq<u8>) -> Seq<u8>
    decreases s.len(),
{
    if s.len() == 0 {
        Seq::empty()
    } else if keeps(mode, s[0]) {
        seq![s[0]] + strip_from(next_mode(mode, s[0]), s.skip(1))
    } else {
        strip_from(next_mode(mode, s[0]), s.skip(1))
    }
}

/// The mode in which reading `s` ends when it starts in `mode`.
pub open spec fn end_mode(mode: Mode, s: Seq<u8>) -> Mode
    decreases s.len(),
{
    if s.len() == 0 {
        mode
    } else {
        end_mode(next_mode(mode, s[0]), s.skip(1))
    }
}

/// `s` without escape sequences and control bytes. A sequence that the end
/// of `s` cuts short is dropped as far as it goes.
pub open spec fn strip(s: Seq<u8>) -> Seq<u8> {
    strip_from(Mode::Ground, s)
}

/// Reading `a` and then `b` keeps what reading `a` keeps, then what reading
/// `b` keeps from the mode in which `a` ended.
pub proof fn lemma_strip_concat(mode: Mode, a: Seq<u8>, b: Seq<u8>)
    ensures
        strip_from(mode, a + b) == strip_from(mode, a) + strip_from(end_mode(mode, a), b),
        end_mode(mode, a + b) == end_mode(end_mode(mode, a), b),
    decreases a.len(),
{
    if a.len() != 0 {
        let m = next_mode(mode, a[0]);
        lemma_strip_concat(m, a.skip(1), b);
        assert((a + b).skip(1) =~= a.skip(1) + b);
    }
}

/// What is kept is no longer than the input and holds no control byte.
pub proof fn lemma_strip_clean(mode: Mode, s: Seq<u8>)
    ensures
        strip_from(mode, s).len() <= s.len(),
        forall|i: int| 0 <= i < strip_from(mode, s).len() ==> !is_control(
            #[trigger] strip_from(mode, s)[i],
        ),
    decreases s.len(),
{
    if s.len() > 0 {
        lemma_strip_clean(next_mode(mode, s[0]), s.skip(1));
    }
}

/// Input without control bytes is kept whole, and reading it ends in plain text.
pub proof fn lemma_strip_plain(s: Seq<u8>)
    requires
        forall|i: int| 0 <= i < s.len() ==> !is_control(#[trigger] s[i]),
    ensures
        strip(s) == s,
        end_mode(Mode::Ground, s) == Mode::Ground,
    decreases s.len(),
{
    if s.len() > 0 {
        let t = s.skip(1);
        lemma_strip_plain(t);
    }
}

/// Nothing is kept of bytes read inside a control sequence that has no final byte.
pub proof fn lemma_open_csi(s: Seq<u8>)
    requires
        forall|i: int| 0 <= i < s.len() ==> !is_csi_final(#[trigger] s[i]),
    ensures
        strip_from(Mode::Csi, s) == Seq::<u8>::empty(),
    decreases s.len(),
{
    if s.len() > 0 {
        let t = s.skip(1);
        lemma_open_csi(t);
    }
}

/// A control sequence that the end of the input cuts short is dropped: after
/// input that ends in plain text, `ESC [` and any bytes that do not end the
/// sequence add nothing to what is kept. So is a lone `ESC` at the end.
pub proof fn law_truncated_sequence_dropped(a: Seq<u8>, params: Seq<u8>)
    requires
        end_mode(Mode::Ground, a) == Mode::Ground,
        forall|i: int| 0 <= i < params.len() ==> !is_csi_final(#[trigger] params[i]),
    ensures
        strip(a + seq![ESC, 0x5bu8] + params) == strip(a),
        strip(a + seq![ESC]) == strip(a),
        strip(a + seq![ESC, 0x5bu8] + params).len() < (a + seq![ESC, 0x5bu8] + params).len(),
{
    let open = seq![ESC, 0x5bu8];
    lemma_strip_concat(Mode::Ground, a, open + params);
    lemma_strip_concat(Mode::Ground, open, params);
    assert(a + open + params =~= a + (open + params));
    let o1 = open.skip(1);
    let o2 = o1.skip(1);
    assert(strip_from(Mode::Csi, o2) =~= Seq::<u8>::empty());
    assert(end_mode(Mode::Csi, o2) == Mode::Csi);
    assert(strip_from(Mode::Escape, o1) =~= Seq::<u8>::empty());
    assert(end_mode(Mode::Escape, o1) == Mode::Csi);
    lemma_open_csi(params);
    let lone = seq![ESC];
    lemma_strip_concat(Mode::Ground, a, lone);
    assert(strip_from(Mode::Escape, lone.skip(1)) =~= Seq::<u8>::empty());
    lemma_strip_clean(Mode::Ground, a);
}

/// What the sanitizer has kept it keeps again: nothing is left in it to
/// take out.
pub proof fn law_strip_idempotent(s: Seq<u8>)
    ensures
        strip(strip(s)) == strip(s),
{
    lemma_strip_clean(Mode::Ground, s);
    lemma_strip_plain(strip(s));
}

fn byte_is_control(b: u8) -> (r: bool)
    ensures
        r == is_control(b),
{
    b < 0x20 || b == 0x7f
}

fn advance(mode: Mode, b: u8) -> (m: Mode)
    ensures
        m == next_mode(mode, b),
{
    match mode {
        Mode::Ground => if b == ESC {
            Mode::Escape
        } else {
            Mode::Ground
        },
        Mode::Escape => if b == 0x5b {
            Mode::Csi
        } else if b == 0x5d {
            Mode::Osc
        } else {
            Mode::Ground
        },
        Mode::Csi => if 0x40 <= b && b <= 0x7e {
            Mode::Ground
        } else {
            Mode::Csi
        },
        Mode::Osc => if b == BEL {
            Mode::Ground
        } else if b == ESC {
            Mode::OscEscape
        } else {
            Mode::Osc
        },
        Mode::OscEscape => if b == 0x5c || b == BEL {
            Mode::Ground
        } else if b == ESC {
            Mode::OscEscape
        } else {
            Mode::Osc
        },
    }
}

/// Takes escape sequences and control bytes out of `bytes`.
pub fn strip_bytes(bytes: &[u8]) -> (out: Vec<u8>)
    ensures
        out@ == strip(bytes@),
        out.len() <= bytes.len(),
        forall|i: int| 0 <= i < out.len() ==> !is_control(#[trigger] out@[i]),
{
    let mut out: Vec<u8> = Vec::new();
    let mut mode = Mode::Ground;
    let mut i: usize = 0;
    proof {
        assert(bytes@.skip(0) =~= bytes@);
    }
    while i < bytes.len()
        invariant
            i <= bytes.len(),
            out@ + strip_from(mode, bytes@.skip(i as int)) == strip(bytes@),
        decreases bytes.len() - i,
    {
        let b = bytes[i];
        let ghost rest = bytes@.skip(i as int);
        proof {
            assert(rest.skip(1) =~= bytes@.skip(i + 1));
        }
        let keep = match mode {
            Mode::Ground => !byte_is_control(b),
            _ => false,
        };
        if keep {
            out.push(b);
        }
        mode = advance(mode, b);
        i += 1;
    }
    proof {
        lemma_strip_clean(Mode::Ground, bytes@);
    }
    out
}

/// The text that `String::from_utf8_lossy` makes of bytes that are not valid
/// UTF-8.
pub uninterp spec fn utf8_lossy(bytes: Seq<u8>) -> Seq<char>;

/// The text that bytes are shown as: their decoding where they are valid
/// UTF-8, and a lossy decoding where they are not.
pub open spec fn shown_text(bytes: Seq<u8>) -> Seq<char> {
    if valid_utf8(bytes) {
        decode_utf8(bytes)
    } else {
        utf8_lossy(bytes)
    }
}

/// Calls `String::from_utf8_lossy`. Valid UTF-8 comes back decoded as it is;
/// of other input the contract only names the result, which is a function of
/// the bytes.
#[verifier::external_body]
pub(crate) fn decode_lossy(bytes: &[u8]) -> (s: String)
    ensures
        valid_utf8(bytes@) ==> s@ == decode_utf8(bytes@),
        !valid_utf8(bytes@) ==> s@ == utf8_lossy(bytes@),
{
    String::from_utf8_lossy(bytes).into_owned()
}

/// What `sanitize_log_line` makes of the text `line`.
pub open spec fn sanitized(line: Seq<char>) -> Seq<char> {
    trim(shown_text(strip(encode_utf8(line))))
}

/// A line of program output made fit to show: without escape sequences and
/// control bytes, and without whitespace at either end.
pub fn sanitize_log_line(line: &str) -> (out: String)
    ensures
        out@ == sanitized(line@),
{
    let kept = strip_bytes(line.as_bytes());
    let cleaned = decode_lossy(kept.as_slice());
    let chars = to_chars(cleaned.as_str());
    from_chars(&trim_chars(&chars))
}

/// A character of plain text: ASCII, and no control character.
pub open spec fn is_plain(c: char) -> bool {
    ' ' <= c && c < '\u{7f}'
}

/// Plain ASCII text without control characters comes back as it is, trimmed.
pub proof fn law_plain_text_kept(line: Seq<char>)
    requires
        forall|i: int| 0 <= i < line.len() ==> is_plain(#[trigger] line[i]),
    ensures
        sanitized(line) == trim(line),
{
    let bytes = encode_utf8(line);
    assert(vstd::utf8::is_ascii_chars(line)) by {
        assert forall|i: int| 0 <= i < line.len() implies '\0' <= #[trigger] line[i]
            <= '\u{7f}' by {
        }
    }
    vstd::utf8::is_ascii_chars_encode_utf8(line);
    lemma_strip_plain(bytes);
    vstd::utf8::encode_utf8_valid_utf8(line);
    vstd::utf8::encode_utf8_decode_utf8(line);
}

/// A control sequence cut short at the end of plain text is dropped with
/// nothing left of it: the text comes back as it is, trimmed.
pub proof fn law_plain_text_truncated_escape(line: Seq<char>)
    requires
        forall|i: int| 0 <= i < line.len() ==> is_plain(#[trigger] line[i]),
    ensures
        sanitized(line + seq!['\x1b', '[']) == trim(line),
        sanitized(line + seq!['\x1b']) == trim(line),
{
    let bytes = encode_utf8(line);
    assert(vstd::utf8::is_ascii_chars(line)) by {
        assert forall|i: int| 0 <= i < line.len() implies '\0' <= #[trigger] line[i]
            <= '\u{7f}' by {
        }
    }
    vstd::utf8::is_ascii_chars_encode_utf8(line);
    lemma_strip_plain(bytes);
    law_plain_text_kept(line);
    law_truncated_sequence_dropped(bytes, Seq::empty());

    let two = line + seq!['\x1b', '['];
    assert(vstd::utf8::is_ascii_chars(two)) by {
        assert forall|i: int| 0 <= i < two.len() implies '\0' <= #[trigger] two[i] <= '\u{7f}' by {
        }
    }
    vstd::utf8::is_ascii_chars_encode_utf8(two);
    assert(encode_utf8(two) =~= bytes + seq![ESC, 0x5bu8] + Seq::<u8>::empty());

    let one = line + seq!['\x1b'];
    assert(vstd::utf8::is_ascii_chars(one)) by {
        assert forall|i: int| 0 <= i < one.len() implies '\0' <= #[trigger] one[i] <= '\u{7f}' by {
        }
    }
    vstd::utf8::is_ascii_chars_encode_utf8(one);
    assert(encode_utf8(one) =~= bytes + seq![ESC]);
}

} // verus!
