//! Textual rendering of a chain: decimal numbers and the one-line-per-frame
//! trace format.
use vstd::prelude::*;

use crate::FrameInfo;
use crate::frame_info;
use vstd::string::StringExecFns;

verus! {

/// The decimal digit `d` as a character; meaningful for `d < 10`.
pub open spec fn digit_char(d: nat) -> char {
    if d == 0 {
        '0'
    } else if d == 1 {
        '1'
    } else if d == 2 {
        '2'
    } else if d == 3 {
        '3'
    } else if d == 4 {
        '4'
    } else if d == 5 {
        '5'
    } else if d == 6 {
        '6'
    } else if d == 7 {
        '7'
    } else if d == 8 {
        '8'
    } else {
        '9'
    }
}

/// The decimal rendering of `n`, most significant digit first, without
/// leading zeros (`0` itself renders as the single digit `0`).
pub open spec fn dec_seq(n: nat) -> Seq<char>
    decreases n,
{
    if n < 10 {
        seq![digit_char(n)]
    } else {
        dec_seq(n / 10) + seq![digit_char(n % 10)]
    }
}

/// `s` right-aligned to a width of two with a space: one leading space when
/// `s` is a single character, `s` itself otherwise.
pub open spec fn pad2(s: Seq<char>) -> Seq<char> {
    if s.len() < 2 {
        seq![' '] + s
    } else {
        s
    }
}

/// A decimal rendering is never empty.
pub proof fn lemma_dec_seq_nonempty(n: nat)
    ensures
        dec_seq(n).len() >= 1,
    decreases n,
{
    if n >= 10 {
        lemma_dec_seq_nonempty(n / 10);
    }
}

/// The decimal digit `d` as a string slice.
fn digit_str(d: u64) -> (r: &'static str)
    requires
        d < 10,
    ensures
        r@ == seq![digit_char(d as nat)],
{
    proof {
        reveal_strlit("0");
        reveal_strlit("1");
        reveal_strlit("2");
        reveal_strlit("3");
        reveal_strlit("4");
        reveal_strlit("5");
        reveal_strlit("6");
        reveal_strlit("7");
        reveal_strlit("8");
        reveal_strlit("9");
    }
    if d == 0 {
        "0"
    } else if d == 1 {
        "1"
    } else if d == 2 {
        "2"
    } else if d == 3 {
        "3"
    } else if d == 4 {
        "4"
    } else if d == 5 {
        "5"
    } else if d == 6 {
        "6"
    } else if d == 7 {
        "7"
    } else if d == 8 {
        "8"
    } else {
        "9"
    }
}

/// Renders `n` in decimal.
pub fn u64_dec(n: u64) -> (r: String)
    ensures
        r@ == dec_seq(n as nat),
    decreases n,
{
    if n < 10 {
        digit_str(n).to_owned()
    } else {
        assert(n / 10 < n) by (nonlinear_arith)
            requires
                n >= 10,
        ;
        let mut s = u64_dec(n / 10);
        s.append(digit_str(n % 10));
        s
    }
}

/// Renders `n` in decimal, right-aligned to a width of two with a space.
pub fn u64_dec_pad2(n: u64) -> (r: String)
    ensures
        r@ == pad2(dec_seq(n as nat)),
{
    if n < 10 {
        proof {
            reveal_strlit(" ");
        }
        let mut s = " ".to_owned();
        s.append(digit_str(n));
        proof {
            assert(s@ =~= pad2(dec_seq(n as nat)));
        }
        s
    } else {
        proof {
            lemma_dec_seq_nonempty(n as nat / 10);
        }
        u64_dec(n)
    }
}

/// The trace line of the frame `fi` at position `i` of its chain: a leading
/// newline, the position right-aligned to two characters, the capture
/// location as `file line:column` in brackets, and the error's display text.
pub open spec fn trace_line(i: nat, fi: FrameInfo) -> Seq<char> {
    seq!['\n', ' '] + pad2(dec_seq(i)) + seq![' ', '|', ' ', '['] + fi.file + seq![' ']
        + dec_seq(fi.line as nat) + seq![':'] + dec_seq(fi.column as nat) + seq![']', ':', ' ']
        + fi.text
}

/// The trace of `chain` when its first frame stands at position `i`: one
/// line per frame, in chain order.
pub open spec fn trace_from(chain: Seq<FrameInfo>, i: nat) -> Seq<char>
    decreases chain.len(),
{
    if chain.len() == 0 {
        Seq::empty()
    } else {
        trace_line(i, chain[0]) + trace_from(chain.drop_first(), i + 1)
    }
}

/// The trace of a whole chain: one line per frame, newest first, positions
/// counted from zero.
pub open spec fn trace_text(chain: Seq<FrameInfo>) -> Seq<char> {
    trace_from(chain, 0)
}

/// Renders the trace line of one frame, given by its parts.
pub fn line_string(i: u64, file: &str, line: u32, column: u32, text: &str) -> (r: String)
    ensures
        r@ == trace_line(i as nat, frame_info(text@, file@, line, column)),
{
    proof {
        reveal_strlit("\n ");
        reveal_strlit(" | [");
        reveal_strlit(" ");
        reveal_strlit(":");
        reveal_strlit("]: ");
    }
    let mut s = "\n ".to_owned();
    s.append(u64_dec_pad2(i).as_str());
    s.append(" | [");
    s.append(file);
    s.append(" ");
    s.append(u64_dec(line as u64).as_str());
    s.append(":");
    s.append(u64_dec(column as u64).as_str());
    s.append("]: ");
    s.append(text);
    proof {
        assert(s@ =~= trace_line(i as nat, frame_info(text@, file@, line, column)));
    }
    s
}

} // verus!
