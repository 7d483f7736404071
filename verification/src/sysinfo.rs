//! System metrics and how they are laid out on the canvas.
//!
//! Both readings are kept in tenths, which is all that the display shows:
//! memory in tenths of a gibibyte, processor load in tenths of a percent.

use crate::framebuffer::{overlaid, FrameBuffer};
use crate::text::{draw_text, drawable, glyph_coverage, Font, RenderFailure};
use vstd::prelude::*;

verus! {

/// Number of bytes in a gibibyte.
pub const GIB: u64 = 1073741824;

/// Column at which both lines of the metrics start.
pub const METRICS_X: u8 = 10;

/// Baseline of the memory line.
pub const MEMORY_Y: u8 = 12;

/// Baseline of the processor line.
pub const CPU_Y: u8 = 35;

/// Width of the field in which a reading is right-justified.
pub const FIELD_WIDTH: usize = 4;

/// The character of a decimal digit.
pub open spec fn digit_char(d: nat) -> char {
    if d == 0 {
        '0'
    } else if d == 1 {
        '1'
    } else if d == 2 {
        '2'
    } else if d == 3 {
        '3'
    } else if d == 4 {
        '4'
    } else if d == 5 {
        '5'
    } else if d == 6 {
        '6'
    } else if d == 7 {
        '7'
    } else if d == 8 {
        '8'
    } else {
        '9'
    }
}

/// The decimal digits of `n`, most significant first, without leading zeros.
pub open spec fn decimal_digits(n: nat) -> Seq<char>
    decreases n,
{
    if n < 10 {
        seq![digit_char(n)]
    } else {
        decimal_digits(n / 10).push(digit_char(n % 10))
    }
}

/// A number of tenths written with one decimal place.
pub open spec fn one_decimal(tenths: nat) -> Seq<char> {
    decimal_digits(tenths / 10) + seq!['.', digit_char(tenths % 10)]
}

/// `s` moved to the right end of a field of `width` characters by spaces in
/// front of it. A text that fills the field or is wider stays as it is.
pub open spec fn right_justified(s: Seq<char>, width: nat) -> Seq<char> {
    if s.len() >= width {
        s
    } else {
        Seq::new((width - s.len()) as nat, |i: int| ' ') + s
    }
}

/// The memory line for a reading in tenths of a gibibyte.
pub open spec fn memory_text(tenths: nat) -> Seq<char> {
    seq!['M', ':', ' '] + right_justified(one_decimal(tenths), FIELD_WIDTH as nat) + seq!['G']
}

/// The processor line for a reading in tenths of a percent.
pub open spec fn cpu_text(tenths: nat) -> Seq<char> {
    seq!['C', ':', ' '] + right_justified(one_decimal(tenths), FIELD_WIDTH as nat) + seq!['%']
}

/// `num / den` rounded to the nearest whole number, a tie going to the even
/// neighbour.
pub open spec fn round_half_even(num: nat, den: nat) -> nat
    recommends
        den > 0,
{
    let quotient = num / den;
    let twice_rest = 2 * (num % den);
    if twice_rest < den {
        quotient
    } else if twice_rest > den {
        quotient + 1
    } else if quotient % 2 == 0 {
        quotient
    } else {
        quotient + 1
    }
}

/// A number of bytes in tenths of a gibibyte, rounded to the nearest tenth.
pub open spec fn gib_tenths(bytes: nat) -> nat {
    round_half_even(bytes * 10, 1073741824)
}

/// Ten to the power of `k`.
pub open spec fn pow10(k: nat) -> nat
    decreases k,
{
    if k == 0 {
        1
    } else {
        10 * pow10((k - 1) as nat)
    }
}

/// A number below `10^k` has at most `k` digits, and every number has one.
pub proof fn lemma_decimal_digits_len(n: nat, k: nat)
    requires
        k >= 1,
        n < pow10(k),
    ensures
        1 <= decimal_digits(n).len() <= k,
        n < 10 <==> decimal_digits(n).len() == 1,
    decreases k,
{
    if n >= 10 {
        if k == 1 {
            assert(pow10(1) == 10) by {
                reveal_with_fuel(pow10, 2);
            }
        } else {
            lemma_decimal_digits_len(n / 10, (k - 1) as nat);
        }
    }
}

/// No 64-bit number has more than twenty digits.
pub proof fn lemma_decimal_digits_u64(n: u64)
    ensures
        1 <= decimal_digits(n as nat).len() <= 20,
        n < 10 <==> decimal_digits(n as nat).len() == 1,
{
    assert(pow10(20) == 100_000_000_000_000_000_000nat) by {
        reveal_with_fuel(pow10, 21);
    }
    lemma_decimal_digits_len(n as nat, 20);
}

/// The text of one decimal digit.
fn digit_str(d: u64) -> (s: &'static str)
    requires
        d < 10,
    ensures
        s@ == seq![digit_char(d as nat)],
{
    proof {
        reveal_strlit("0");
        reveal_strlit("1");
        reveal_strlit("2");
        reveal_strlit("3");
        reveal_strlit("4");
        reveal_strlit("5");
        reveal_strlit("6");
        reveal_strlit("7");
        reveal_strlit("8");
        reveal_strlit("9");
    }
    let s: &'static str = if d == 0 {
        "0"
    } else if d == 1 {
        "1"
    } else if d == 2 {
        "2"
    } else if d == 3 {
        "3"
    } else if d == 4 {
        "4"
    } else if d == 5 {
        "5"
    } else if d == 6 {
        "6"
    } else if d == 7 {
        "7"
    } else if d == 8 {
        "8"
    } else {
        "9"
    };
    assert(s@ =~= seq![digit_char(d as nat)]);
    s
}

/// Appends the decimal digits of `n` to `out`.
fn append_decimal(out: &mut String, n: u64)
    ensures
        final(out)@ == old(out)@ + decimal_digits(n as nat),
    decreases n,
{
    if n >= 10 {
        append_decimal(out, n / 10);
    }
    out.append(digit_str(n % 10));
    assert(out@ =~= old(out)@ + decimal_digits(n as nat));
}

/// Appends a reading with one decimal place, right-justified in its field.
fn append_reading(out: &mut String, tenths: u64)
    ensures
        final(out)@ == old(out)@ + right_justified(
            one_decimal(tenths as nat),
            FIELD_WIDTH as nat,
        ),
{
    proof {
        lemma_decimal_digits_u64(tenths / 10);
        reveal_strlit(" ");
        reveal_strlit(".");
    }
    if tenths < 100 {
        out.append(" ");
    }
    append_decimal(out, tenths / 10);
    out.append(".");
    out.append(digit_str(tenths % 10));
    assert(out@ =~= old(out)@ + right_justified(one_decimal(tenths as nat), 4));
}

/// The latest readings of memory in use and of processor load.
#[derive(Clone, Copy, Debug, PartialEq, Eq)]
pub struct SysInfo {
    mem_used: u64,
    cpu_used: u64,
}

/// `frame` with the two lines of the metrics drawn over it.
pub open spec fn with_metrics(frame: Seq<u8>, mem_tenths: nat, cpu_tenths: nat) -> Seq<u8> {
    overlaid(
        overlaid(frame, glyph_coverage(memory_text(mem_tenths), Font::Large, 10, 12)),
        glyph_coverage(cpu_text(cpu_tenths), Font::Large, 10, 35),
    )
}

impl SysInfo {
    /// Memory in use, in tenths of a gibibyte.
    pub closed spec fn spec_mem_used(&self) -> u64 {
        self.mem_used
    }

    /// Processor load, in tenths of a percent.
    pub closed spec fn spec_cpu_used(&self) -> u64 {
        self.cpu_used
    }

    /// Readings of zero, as they stand before the first poll.
    pub fn new() -> (s: SysInfo)
        ensures
            s.mem_used() == 0,
            s.cpu_used() == 0,
    {
        SysInfo { mem_used: 0, cpu_used: 0 }
    }

    /// Memory in use, in tenths of a gibibyte.
    #[verifier::when_used_as_spec(spec_mem_used)]
    pub fn mem_used(&self) -> (t: u64)
        ensures
            t == self.mem_used(),
    {
        self.mem_used
    }

    /// Processor load, in tenths of a percent.
    #[verifier::when_used_as_spec(spec_cpu_used)]
    pub fn cpu_used(&self) -> (t: u64)
        ensures
            t == self.cpu_used(),
    {
        self.cpu_used
    }

    /// Takes a new sample: the memory in use in bytes, which is kept in
    /// tenths of a gibibyte rounded to the nearest, and the processor load in
    /// tenths of a percent.
    pub fn poll(&mut self, used_memory: u64, cpu_tenths: u64)
        ensures
            final(self).mem_used() == gib_tenths(used_memory as nat),
            final(self).cpu_used() == cpu_tenths,
    {
        let scaled: u128 = used_memory as u128 * 10;
        let quotient: u128 = scaled / (GIB as u128);
        let twice_rest: u128 = 2 * (scaled % (GIB as u128));
        let up: bool = twice_rest > GIB as u128 || (twice_rest == GIB as u128 && quotient % 2
            == 1);
        let rounded: u128 = if up {
            quotient + 1
        } else {
            quotient
        };
        self.mem_used = rounded as u64;
        self.cpu_used = cpu_tenths;
    }

    /// The memory line: `M: `, the reading with one decimal place
    /// right-justified in four characters, and `G`.
    pub fn memory_line(&self) -> (line: String)
        ensures
            line@ == memory_text(self.mem_used() as nat),
    {
        proof {
            reveal_strlit("M: ");
            reveal_strlit("G");
        }
        let mut line: String = String::from_str("M: ");
        append_reading(&mut line, self.mem_used);
        line.append("G");
        assert(line@ =~= memory_text(self.mem_used() as nat));
        line
    }

    /// The processor line: `C: `, the reading with one decimal place
    /// right-justified in four characters, and `%`.
    pub fn cpu_line(&self) -> (line: String)
        ensures
            line@ == cpu_text(self.cpu_used() as nat),
    {
        proof {
            reveal_strlit("C: ");
            reveal_strlit("%");
        }
        let mut line: String = String::from_str("C: ");
        append_reading(&mut line, self.cpu_used);
        line.append("%");
        assert(line@ =~= cpu_text(self.cpu_used() as nat));
        line
    }

    /// Draws the memory line at (10, 12) and the processor line at (10, 35),
    /// both in the large style, over what `target` holds. Neither line can be
    /// too long, so the call always succeeds.
    pub fn draw(&self, target: &mut FrameBuffer) -> (done: Result<(), RenderFailure>)
        ensures
            done == Ok::<(), RenderFailure>(()),
            final(target)@ == with_metrics(
                old(target)@,
                self.mem_used() as nat,
                self.cpu_used() as nat,
            ),
    {
        let memory: String = self.memory_line();
        let cpu: String = self.cpu_line();
        proof {
            lemma_metrics_drawable(self.mem_used);
            lemma_metrics_drawable(self.cpu_used);
        }
        match draw_text(target, memory.as_str(), Font::Large, METRICS_X, MEMORY_Y) {
            Ok(()) => {},
            Err(e) => {
                return Err(e);
            },
        }
        draw_text(target, cpu.as_str(), Font::Large, METRICS_X, CPU_Y)
    }
}

/// Both lines of the metrics are short enough to be drawn, whatever the
/// readings.
pub proof fn lemma_metrics_drawable(tenths: u64)
    ensures
        drawable(memory_text(tenths as nat)),
        drawable(cpu_text(tenths as nat)),
        memory_text(tenths as nat).len() <= 26,
        cpu_text(tenths as nat).len() <= 26,
        memory_text(tenths as nat).len() >= 8,
        cpu_text(tenths as nat).len() >= 8,
{
    lemma_decimal_digits_u64(tenths / 10);
}

} // verus!
