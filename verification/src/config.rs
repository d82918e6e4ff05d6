use vstd::prelude::*;
use vstd::string::*;
use crate::frames::{Frame, RawFrame, spec_frames};

verus! {

/// The decimal digit character for `d`.
pub open spec fn spec_digit_char(d: int) -> char
    recommends
        0 <= d < 10,
{
    if d == 0 {
        '0'
    } else if d == 1 {
        '1'
    } else if d == 2 {
        '2'
    } else if d == 3 {
        '3'
    } else if d == 4 {
        '4'
    } else if d == 5 {
        '5'
    } else if d == 6 {
        '6'
    } else if d == 7 {
        '7'
    } else if d == 8 {
        '8'
    } else {
        '9'
    }
}

/// The usual decimal rendering of a non-negative integer, no leading zeros
/// (a lone `0` for zero).
pub open spec fn spec_dec(n: int) -> Seq<char>
    recommends
        n >= 0,
    decreases n,
{
    if n < 10 {
        seq![spec_digit_char(n)]
    } else {
        spec_dec(n / 10).push(spec_digit_char(n % 10))
    }
}

/// The raster file name the external tools use for frame `i`:
/// `cursor.png` for the first frame, `cursor-<i>.png` afterwards.
pub open spec fn spec_frame_file_name(i: int) -> Seq<char>
    recommends
        i >= 0,
{
    if i == 0 {
        "cursor.png"@
    } else {
        "cursor-"@ + spec_dec(i) + ".png"@
    }
}

/// One config line of a multi-frame cursor: fixed nominal size 32,
/// hotspot (0,0), the frame's raster file and its delay in centiseconds.
pub open spec fn spec_config_line(i: int, delay: u32) -> Seq<char>
    recommends
        i >= 0,
{
    "32 0 0 "@ + spec_frame_file_name(i) + " "@ + spec_dec(delay as int)
}

/// The first `upto` config lines, each terminated by a newline.
pub open spec fn spec_config_lines(frames: Seq<Frame>, upto: int) -> Seq<char>
    recommends
        0 <= upto <= frames.len(),
    decreases upto,
{
    if upto <= 0 {
        Seq::empty()
    } else {
        spec_config_lines(frames, upto - 1) + spec_config_line(upto - 1, frames[upto - 1].delay)
            + "\n"@
    }
}

/// The whole config text. A single frame collapses to one line that names
/// `cursor.png` and carries no delay field and no newline; the downstream
/// cursor compiler requires exactly this shape for a static cursor.
pub open spec fn spec_config(frames: Seq<Frame>) -> Seq<char> {
    if frames.len() == 1 {
        "32 0 0 cursor.png"@
    } else {
        spec_config_lines(frames, frames.len() as int)
    }
}

/// Appends the decimal digit `d` to `s`.
fn push_digit(s: &mut String, d: u32)
    requires
        d < 10,
    ensures
        final(s)@ == old(s)@ + seq![spec_digit_char(d as int)],
{
    if d == 0 {
        s.append("0");
        proof {
            reveal_strlit("0");
            assert(s@ =~= old(s)@ + seq![spec_digit_char(d as int)]);
        }
    } else if d == 1 {
        s.append("1");
        proof {
            reveal_strlit("1");
            assert(s@ =~= old(s)@ + seq![spec_digit_char(d as int)]);
        }
    } else if d == 2 {
        s.append("2");
        proof {
            reveal_strlit("2");
            assert(s@ =~= old(s)@ + seq![spec_digit_char(d as int)]);
        }
    } else if d == 3 {
        s.append("3");
        proof {
            reveal_strlit("3");
            assert(s@ =~= old(s)@ + seq![spec_digit_char(d as int)]);
        }
    } else if d == 4 {
        s.append("4");
        proof {
            reveal_strlit("4");
            assert(s@ =~= old(s)@ + seq![spec_digit_char(d as int)]);
        }
    } else if d == 5 {
        s.append("5");
        proof {
            reveal_strlit("5");
            assert(s@ =~= old(s)@ + seq![spec_digit_char(d as int)]);
        }
    } else if d == 6 {
        s.append("6");
        proof {
            reveal_strlit("6");
            assert(s@ =~= old(s)@ + seq![spec_digit_char(d as int)]);
        }
    } else if d == 7 {
        s.append("7");
        proof {
            reveal_strlit("7");
            assert(s@ =~= old(s)@ + seq![spec_digit_char(d as int)]);
        }
    } else if d == 8 {
        s.append("8");
        proof {
            reveal_strlit("8");
            assert(s@ =~= old(s)@ + seq![spec_digit_char(d as int)]);
        }
    } else {
        s.append("9");
        proof {
            reveal_strlit("9");
            assert(s@ =~= old(s)@ + seq![spec_digit_char(d as int)]);
        }
    }
}

/// Appends the decimal rendering of `n` to `s`.
fn push_dec(s: &mut String, n: usize)
    ensures
        final(s)@ == old(s)@ + spec_dec(n as int),
    decreases n,
{
    if n < 10 {
        push_digit(s, n as u32);
    } else {
        push_dec(s, n / 10);
        push_digit(s, (n % 10) as u32);
        proof {
            assert(s@ =~= old(s)@ + spec_dec(n as int));
        }
    }
}

/// The raster file name of frame `i`.
pub fn frame_file_name(i: usize) -> (r: String)
    ensures
        r@ == spec_frame_file_name(i as int),
{
    if i == 0 {
        String::from_str("cursor.png")
    } else {
        let mut s = String::from_str("cursor-");
        push_dec(&mut s, i);
        s.append(".png");
        proof {
            assert(s@ =~= spec_frame_file_name(i as int));
        }
        s
    }
}

/// Renders the config text the external cursor compiler consumes: one line
/// per frame of a multi-frame sequence, and the collapsed single line for a
/// single-frame sequence.
pub fn generate_config(frames: &Vec<Frame>) -> (r: String)
    ensures
        r@ == spec_config(frames@),
{
    if frames.len() == 1 {
        return String::from_str("32 0 0 cursor.png");
    }
    let mut s = String::new();
    let mut i: usize = 0;
    while i < frames.len()
        invariant
            i <= frames@.len(),
            frames@.len() != 1,
            s@ == spec_config_lines(frames@, i as int),
        decreases frames@.len() - i,
    {
        s.append("32 0 0 ");
        let name = frame_file_name(i);
        s.append(name.as_str());
        s.append(" ");
        push_dec(&mut s, frames[i].delay as usize);
        s.append("\n");
        proof {
            assert(s@ =~= spec_config_lines(frames@, i + 1 as int));
        }
        i += 1;
    }
    s
}

/// How many newlines a character sequence holds; the multi-frame config
/// ends every line with one, so this counts its lines.
pub open spec fn spec_count_newlines(s: Seq<char>) -> int
    decreases s.len(),
{
    if s.len() == 0 {
        0
    } else {
        spec_count_newlines(s.drop_last()) + if s.last() == '\n' {
            1int
        } else {
            0int
        }
    }
}

proof fn lemma_count_newlines_concat(a: Seq<char>, b: Seq<char>)
    ensures
        spec_count_newlines(a + b) == spec_count_newlines(a) + spec_count_newlines(b),
    decreases b.len(),
{
    if b.len() == 0 {
        assert(a + b =~= a);
    } else {
        lemma_count_newlines_concat(a, b.drop_last());
        assert((a + b).drop_last() =~= a + b.drop_last());
        assert((a + b).last() == b.last());
    }
}

proof fn lemma_dec_no_newline(n: int)
    requires
        n >= 0,
    ensures
        forall|j: int| 0 <= j < spec_dec(n).len() ==> spec_dec(n)[j] != '\n',
        spec_count_newlines(spec_dec(n)) == 0,
    decreases n,
{
    if n < 10 {
        assert(spec_dec(n) =~= seq![spec_digit_char(n)]);
        assert(spec_digit_char(n) != '\n');
        assert(spec_dec(n).drop_last() =~= Seq::<char>::empty());
        assert(spec_count_newlines(spec_dec(n)) == spec_count_newlines(Seq::<char>::empty()) + 0);
    } else {
        lemma_dec_no_newline(n / 10);
        assert(spec_dec(n).drop_last() =~= spec_dec(n / 10));
        assert(spec_dec(n).last() == spec_digit_char(n % 10));
        assert(spec_digit_char(n % 10) != '\n');
    }
}

proof fn lemma_config_line_no_newlines(i: int, delay: u32)
    requires
        i >= 0,
    ensures
        spec_count_newlines(spec_config_line(i, delay)) == 0,
{
    reveal_strlit("32 0 0 ");
    reveal_strlit("cursor.png");
    reveal_strlit("cursor-");
    reveal_strlit(".png");
    reveal_strlit(" ");
    lemma_dec_no_newline(i);
    lemma_dec_no_newline(delay as int);
    let head = "32 0 0 "@;
    let name = spec_frame_file_name(i);
    let line = spec_config_line(i, delay);
    lemma_count_newlines_seq_of_non_newlines(head);
    if i == 0 {
        lemma_count_newlines_seq_of_non_newlines("cursor.png"@);
    } else {
        lemma_count_newlines_seq_of_non_newlines("cursor-"@);
        lemma_count_newlines_seq_of_non_newlines(".png"@);
        lemma_count_newlines_concat("cursor-"@, spec_dec(i));
        lemma_count_newlines_concat("cursor-"@ + spec_dec(i), ".png"@);
    }
    lemma_count_newlines_seq_of_non_newlines(" "@);
    lemma_count_newlines_concat(head, name);
    lemma_count_newlines_concat(head + name, " "@);
    lemma_count_newlines_concat(head + name + " "@, spec_dec(delay as int));
}

proof fn lemma_count_newlines_seq_of_non_newlines(s: Seq<char>)
    requires
        forall|j: int| 0 <= j < s.len() ==> s[j] != '\n',
    ensures
        spec_count_newlines(s) == 0,
    decreases s.len(),
{
    if s.len() > 0 {
        lemma_count_newlines_seq_of_non_newlines(s.drop_last());
    }
}

/// For any single-frame sequence the config is the one collapsed line:
/// it names `cursor.png`, carries no delay field and holds no newline,
/// whatever the frame held and wherever it stood in its source.
pub proof fn lemma_single_frame_config(frames: Seq<Frame>)
    requires
        frames.len() == 1,
    ensures
        spec_config(frames) == "32 0 0 cursor.png"@,
        spec_count_newlines(spec_config(frames)) == 0,
{
    reveal_strlit("32 0 0 cursor.png");
    lemma_count_newlines_seq_of_non_newlines("32 0 0 cursor.png"@);
}

/// For any sequence of two or more frames the config holds exactly one
/// newline-terminated line per frame.
pub proof fn lemma_multi_frame_line_count(frames: Seq<Frame>)
    requires
        frames.len() >= 2,
    ensures
        spec_count_newlines(spec_config(frames)) == frames.len(),
{
    lemma_config_lines_count(frames, frames.len() as int);
}

proof fn lemma_config_lines_count(frames: Seq<Frame>, upto: int)
    requires
        0 <= upto <= frames.len(),
    ensures
        spec_count_newlines(spec_config_lines(frames, upto)) == upto,
    decreases upto,
{
    reveal_strlit("\n");
    if upto > 0 {
        lemma_config_lines_count(frames, upto - 1);
        lemma_config_line_no_newlines(upto - 1, frames[upto - 1].delay);
        lemma_count_newlines_concat(
            spec_config_lines(frames, upto - 1),
            spec_config_line(upto - 1, frames[upto - 1].delay),
        );
        lemma_count_newlines_concat(
            spec_config_lines(frames, upto - 1) + spec_config_line(
                upto - 1,
                frames[upto - 1].delay,
            ),
            "\n"@,
        );
        assert(spec_count_newlines("\n"@) == 1) by {
            reveal_strlit("\n");
            assert("\n"@ =~= seq!['\n']);
            assert("\n"@.drop_last() =~= Seq::<char>::empty());
            assert("\n"@.last() == '\n');
            assert(spec_count_newlines(Seq::<char>::empty()) == 0);
            assert(spec_count_newlines("\n"@) == spec_count_newlines(Seq::<char>::empty()) + 1);
        }
    }
}

/// For any multi-frame source the engine emits one config line per source
/// frame, line `i` prints frame `i`'s file and a delay field of the raw
/// delay times 10.
pub proof fn lemma_multi_frame_config_of_source(raw: Seq<RawFrame>)
    requires
        raw.len() >= 2,
    ensures
        spec_frames(raw).len() == raw.len(),
        forall|i: int| 0 <= i < raw.len() ==> spec_frames(raw)[i].delay == raw[i].delay * 10,
        spec_count_newlines(spec_config(spec_frames(raw))) == raw.len(),
{
    lemma_multi_frame_line_count(spec_frames(raw));
}

} // verus!
