//! The text-concatenation utility's decisions: its option set, the escaping
//! of non-printing characters, and the per-line pipeline of squeezing
//! repeated blank lines, escaping, and numbering.  Reading the lines in and
//! printing the rendered lines out stay at the caller's edge.

use crate::text::is_blank;
use crate::text::is_ctl;
use crate::text::blank_line;
use crate::text::is_control_char;
use crate::text::push_char;
use vstd::prelude::*;
use vstd::string::StrSliceExecFns;

verus! {

/// Options of the concatenation command.
pub struct Config {
    pub show_line_numbers: bool,
    pub show_nonprinting: bool,
    pub squeeze_blank: bool,
}

impl Config {
    /// Every option starts switched off.
    pub fn new() -> (c: Config)
        ensures
            c.show_line_numbers == false,
            c.show_nonprinting == false,
            c.squeeze_blank == false,
    {
        Config { show_line_numbers: false, show_nonprinting: false, squeeze_blank: false }
    }
}

/// What one character becomes under non-printing escaping: tab becomes a
/// caret mark, a newline is dropped, any other control character becomes a
/// caret followed by the character 64 places up, and a printable character
/// stands unchanged.
pub open spec fn esc_char(c: char) -> Seq<char> {
    if c == '\t' {
        seq!['^', 'I']
    } else if c == '\n' {
        Seq::empty()
    } else if is_ctl(c) {
        seq!['^', (((c as u32) + 64) as u8) as char]
    } else {
        seq![c]
    }
}

/// A whole line under non-printing escaping.
pub open spec fn esc_seq(s: Seq<char>) -> Seq<char>
    decreases s.len(),
{
    if s.len() == 0 {
        Seq::empty()
    } else {
        esc_seq(s.drop_last()) + esc_char(s.last())
    }
}

/// Escapes the non-printing characters of a line.
pub fn escape_nonprinting(s: &str) -> (r: String)
    ensures
        r@ == esc_seq(s@),
{
    let mut result = String::new();
    let n = s.unicode_len();
    let mut i: usize = 0;
    proof {
        assert(s@.take(0) =~= Seq::<char>::empty());
    }
    while i < n
        invariant
            n == s@.len(),
            i <= n,
            result@ == esc_seq(s@.take(i as int)),
        decreases n - i,
    {
        let c = s.get_char(i);
        if is_control_char(c) {
            if c == '\t' {
                push_char(&mut result, '^');
                push_char(&mut result, 'I');
            } else if c == '\n' {
            } else {
                let b: u32 = c as u32;
                push_char(&mut result, '^');
                push_char(&mut result, ((b + 64) as u8) as char);
            }
        } else {
            push_char(&mut result, c);
        }
        proof {
            assert(s@.take(i as int + 1).drop_last() =~= s@.take(i as int));
            assert(s@.take(i as int + 1).last() == s@[i as int]);
            assert(result@ =~= esc_seq(s@.take(i as int)) + esc_char(s@[i as int]));
        }
        i += 1;
    }
    proof {
        assert(s@.take(n as int) =~= s@);
    }
    result
}

/// Mathematical value of a rendered line.
#[verifier::ext_equal]
pub ghost struct CatLineView {
    pub number: Option<int>,
    pub text: Seq<char>,
}

/// One rendered output line: its line number, when numbering is on, and its
/// text.
pub struct CatLine {
    pub number: Option<u64>,
    pub text: String,
}

impl View for CatLine {
    type V = CatLineView;

    open spec fn view(&self) -> CatLineView {
        CatLineView {
            number: match self.number {
                Some(n) => Some(n as int),
                None => None,
            },
            text: self.text@,
        }
    }
}

/// The mathematical contents of the rendered output.
pub open spec fn line_views(out: Seq<CatLine>) -> Seq<CatLineView> {
    out.map_values(|l: CatLine| l@)
}

/// The rendered output from a given point on: `next` is the next line
/// number, `last_blank` whether the previous emitted position was a squeezed
/// blank line.  A blank line directly after another is dropped when
/// squeezing; otherwise the line is escaped when requested and numbered when
/// requested.
pub open spec fn render_from(
    lines: Seq<Seq<char>>,
    numbers: bool,
    nonprinting: bool,
    squeeze: bool,
    next: int,
    last_blank: bool,
) -> Seq<CatLineView>
    decreases lines.len(),
{
    if lines.len() == 0 {
        Seq::empty()
    } else {
        let line = lines[0];
        let blank = squeeze && is_blank(line);
        if blank && last_blank {
            render_from(lines.skip(1), numbers, nonprinting, squeeze, next, true)
        } else {
            let text = if nonprinting {
                esc_seq(line)
            } else {
                line
            };
            let item = CatLineView {
                number: if numbers {
                    Some(next)
                } else {
                    None
                },
                text,
            };
            let next2: int = if numbers {
                next + 1
            } else {
                next
            };
            seq![item] + render_from(lines.skip(1), numbers, nonprinting, squeeze, next2, blank)
        }
    }
}

/// The whole rendered output: numbering starts at one, and nothing precedes
/// the first line.
pub open spec fn spec_render(lines: Seq<Seq<char>>, config: Config) -> Seq<CatLineView> {
    render_from(
        lines,
        config.show_line_numbers,
        config.show_nonprinting,
        config.squeeze_blank,
        1,
        false,
    )
}

/// The mathematical contents of the input lines.
pub open spec fn text_views(lines: Seq<String>) -> Seq<Seq<char>> {
    lines.map_values(|s: String| s@)
}

/// Renders the lines of one input under the given options: repeated blank
/// lines are squeezed to one when requested, non-printing characters are
/// escaped when requested, and the emitted lines are numbered from one when
/// requested.
pub fn render_lines(lines: &Vec<String>, config: &Config) -> (out: Vec<CatLine>)
    requires
        lines@.len() < 0xFFFF_FFFF_FFFF_FFFFu64,
    ensures
        line_views(out@) == spec_render(text_views(lines@), *config),
{
    let ghost lv = text_views(lines@);
    let mut out: Vec<CatLine> = Vec::new();
    let mut line_number: u64 = 1;
    let mut last_line_was_empty = false;
    let n = lines.len();
    let mut i: usize = 0;
    proof {
        assert(lv.skip(0) =~= lv);
        assert(line_views(out@) =~= Seq::<CatLineView>::empty());
    }
    while i < n
        invariant
            n == lines@.len(),
            n < 0xFFFF_FFFF_FFFF_FFFFu64,
            i <= n,
            lv == text_views(lines@),
            line_number as int <= 1 + i,
            spec_render(lv, *config) == line_views(out@) + render_from(
                lv.skip(i as int),
                config.show_line_numbers,
                config.show_nonprinting,
                config.squeeze_blank,
                line_number as int,
                last_line_was_empty,
            ),
        decreases n - i,
    {
        let ghost rest = lv.skip(i as int);
        let ghost out0 = line_views(out@);
        let ghost next0 = line_number as int;
        let ghost lb0 = last_line_was_empty;
        proof {
            assert(rest[0] == lines@[i as int]@);
            assert(rest.skip(1) =~= lv.skip(i as int + 1));
        }
        let line = &lines[i];
        let blank = config.squeeze_blank && blank_line(line.as_str());
        if blank && last_line_was_empty {
            // a repeated blank line is squeezed away
            proof {
                assert(render_from(
                    rest,
                    config.show_line_numbers,
                    config.show_nonprinting,
                    config.squeeze_blank,
                    next0,
                    lb0,
                ) == render_from(
                    lv.skip(i as int + 1),
                    config.show_line_numbers,
                    config.show_nonprinting,
                    config.squeeze_blank,
                    next0,
                    true,
                ));
            }
        } else {
            let text = if config.show_nonprinting {
                escape_nonprinting(line.as_str())
            } else {
                line.clone()
            };
            let number = if config.show_line_numbers {
                let this: u64 = line_number;
                line_number = line_number + 1;
                Some(this)
            } else {
                None
            };
            let item = CatLine { number, text };
            proof {
                assert(render_from(
                    rest,
                    config.show_line_numbers,
                    config.show_nonprinting,
                    config.squeeze_blank,
                    next0,
                    lb0,
                ) =~= seq![item@] + render_from(
                    lv.skip(i as int + 1),
                    config.show_line_numbers,
                    config.show_nonprinting,
                    config.squeeze_blank,
                    line_number as int,
                    blank,
                ));
            }
            out.push(item);
            proof {
                assert(line_views(out@) =~= out0.push(item@));
                assert(out0 + (seq![item@] + render_from(
                    lv.skip(i as int + 1),
                    config.show_line_numbers,
                    config.show_nonprinting,
                    config.squeeze_blank,
                    line_number as int,
                    blank,
                )) =~= line_views(out@) + render_from(
                    lv.skip(i as int + 1),
                    config.show_line_numbers,
                    config.show_nonprinting,
                    config.squeeze_blank,
                    line_number as int,
                    blank,
                ));
            }
            last_line_was_empty = blank;
        }
        i += 1;
    }
    proof {
        assert(lv.skip(n as int) =~= Seq::<Seq<char>>::empty());
        assert(line_views(out@) + Seq::<CatLineView>::empty() =~= line_views(out@));
    }
    out
}

} // verus!
