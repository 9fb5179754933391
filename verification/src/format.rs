//! Rendering of samples as short display texts.

use vstd::prelude::*;
use vstd::string::{StrSliceExecFns, StringExecFns};
use crate::cpu::{is_percentage, lemma_whole_percent_nearest, numerator, denominator, whole_percent, CpuUsage};
use crate::decimal::{
    decimal, decimal_value, digit_char, digit_str, digit_value, is_digit, is_numeral, lemma_decimal_len,
    lemma_decimal_numeral, lemma_digit_char, lemma_padded2_numeral, padded2, push_decimal,
    push_padded2, ten_to,
};
use crate::rounding::{is_nearest_even, lemma_round_half_even_nearest, round_half_even, round_ratio};
use crate::sample::Sample;

verus! {

/// The number of bytes in a gigabyte, as memory sizes are counted: 2^30.
pub const GIGABYTE: u64 = 1073741824;

/// The lines of a display text, as sequences of characters.
pub struct DisplayLines {
    pub primary: Seq<char>,
    pub secondary: Option<Seq<char>>,
}

impl DisplayLines {
    /// The lines as one title: the primary line, and below it the secondary
    /// line where there is one.
    pub open spec fn title(self) -> Seq<char> {
        match self.secondary {
            None => self.primary,
            Some(second) => self.primary + seq!['\n'] + second,
        }
    }
}

/// What is shown on a display instance: one line, or two.
#[derive(Clone, Debug, PartialEq, Eq)]
pub struct DisplayText {
    pub primary: String,
    pub secondary: Option<String>,
}

impl View for DisplayText {
    type V = DisplayLines;

    open spec fn view(&self) -> DisplayLines {
        DisplayLines {
            primary: self.primary@,
            secondary: match self.secondary {
                None => None,
                Some(second) => Some(second@),
            },
        }
    }
}

impl DisplayText {
    /// A copy of this text.
    pub fn duplicate(&self) -> (copy: DisplayText)
        ensures
            copy@ == self@,
    {
        let secondary = match &self.secondary {
            None => None,
            Some(second) => Some(second.clone()),
        };
        DisplayText { primary: self.primary.clone(), secondary }
    }

    /// The text as one title for the host: the lines, parted by a line feed.
    pub fn title(&self) -> (title: String)
        ensures
            title@ == self@.title(),
    {
        let mut title = self.primary.clone();
        match &self.secondary {
            None => {},
            Some(second) => {
                proof {
                    reveal_strlit("\n");
                }
                title.append("\n");
                title.append(second.as_str());
                assert(title@ =~= self@.title());
            },
        }
        title
    }
}

/// The text of a CPU load: the whole percent and a percent sign.
pub open spec fn cpu_text(bits: u32) -> Seq<char> {
    decimal(whole_percent(bits)).push('%')
}

/// Memory in use in tenths of a gigabyte, rounded to the nearest tenth, ties
/// to even.
pub open spec fn memory_tenths(bytes: nat) -> nat {
    round_half_even(bytes * 10, GIGABYTE as nat)
}

/// The text of memory in use: gigabytes with one decimal place.
pub open spec fn memory_text(bytes: nat) -> Seq<char> {
    decimal(memory_tenths(bytes) / 10) + seq!['.', digit_char((memory_tenths(bytes) % 10) as int)]
        + seq!['G', 'B']
}

/// Whole days in `secs` seconds.
pub open spec fn uptime_days(secs: nat) -> nat {
    secs / 86400
}

/// Whole hours in what the days leave of `secs` seconds.
pub open spec fn uptime_hours(secs: nat) -> nat {
    (secs % 86400) / 3600
}

/// Whole minutes in what the hours leave of `secs` seconds.
pub open spec fn uptime_minutes(secs: nat) -> nat {
    (secs % 3600) / 60
}

/// The seconds that the minutes leave of `secs` seconds.
pub open spec fn uptime_seconds(secs: nat) -> nat {
    secs % 60
}

/// The first line of an uptime: days, and hours in two digits.
pub open spec fn uptime_primary(secs: nat) -> Seq<char> {
    decimal(uptime_days(secs)) + seq!['d', ' '] + padded2(uptime_hours(secs)) + seq!['h']
}

/// The second line of an uptime: minutes and seconds, in two digits each.
pub open spec fn uptime_secondary(secs: nat) -> Seq<char> {
    padded2(uptime_minutes(secs)) + seq!['m', ' '] + padded2(uptime_seconds(secs)) + seq!['s']
}

/// The display text of a sample, by the rule of its kind.
pub open spec fn display_of(sample: Sample) -> DisplayLines {
    match sample {
        Sample::Cpu(usage) => DisplayLines { primary: cpu_text(usage.spec_bits()), secondary: None },
        Sample::Memory(bytes) => DisplayLines { primary: memory_text(bytes as nat), secondary: None },
        Sample::Uptime(secs) => DisplayLines {
            primary: uptime_primary(secs as nat),
            secondary: Some(uptime_secondary(secs as nat)),
        },
    }
}

/// Renders a CPU load as whole percent.
pub fn format_cpu(usage: CpuUsage) -> (text: DisplayText)
    ensures
        text@ == (DisplayLines { primary: cpu_text(usage.spec_bits()), secondary: None }),
{
    let mut primary = String::new();
    push_decimal(&mut primary, usage.percent() as u64);
    proof {
        reveal_strlit("%");
    }
    primary.append("%");
    assert(primary@ =~= cpu_text(usage.spec_bits()));
    DisplayText { primary, secondary: None }
}

/// Renders memory in use as gigabytes with one decimal place.
pub fn format_memory(bytes: u64) -> (text: DisplayText)
    ensures
        text@ == (DisplayLines { primary: memory_text(bytes as nat), secondary: None }),
{
    let tenths = round_ratio(bytes as u128 * 10, GIGABYTE as u128);
    proof {
        lemma_memory_tenths_nearest(bytes as nat);
    }
    let whole: u64 = (tenths / 10) as u64;
    let tenth: u8 = (tenths % 10) as u8;
    let mut primary = String::new();
    push_decimal(&mut primary, whole);
    proof {
        reveal_strlit(".");
        reveal_strlit("GB");
    }
    primary.append(".");
    primary.append(digit_str(tenth));
    primary.append("GB");
    assert(primary@ =~= memory_text(bytes as nat));
    DisplayText { primary, secondary: None }
}

/// Renders an uptime as days and hours above minutes and seconds.
pub fn format_uptime(secs: u64) -> (text: DisplayText)
    ensures
        text@ == (DisplayLines {
            primary: uptime_primary(secs as nat),
            secondary: Some(uptime_secondary(secs as nat)),
        }),
{
    let days = secs / 86400;
    let hours = (secs % 86400) / 3600;
    let minutes = (secs % 3600) / 60;
    let seconds = secs % 60;
    proof {
        reveal_strlit("d ");
        reveal_strlit("h");
        reveal_strlit("m ");
        reveal_strlit("s");
    }
    let mut primary = String::new();
    push_decimal(&mut primary, days);
    primary.append("d ");
    push_padded2(&mut primary, hours);
    primary.append("h");
    assert(primary@ =~= uptime_primary(secs as nat));
    let mut secondary = String::new();
    push_padded2(&mut secondary, minutes);
    secondary.append("m ");
    push_padded2(&mut secondary, seconds);
    secondary.append("s");
    assert(secondary@ =~= uptime_secondary(secs as nat));
    DisplayText { primary, secondary: Some(secondary) }
}

/// Renders a sample by the rule of its kind.
pub fn format(sample: Sample) -> (text: DisplayText)
    ensures
        text@ == display_of(sample),
{
    match sample {
        Sample::Cpu(usage) => format_cpu(usage),
        Sample::Memory(bytes) => format_memory(bytes),
        Sample::Uptime(secs) => format_uptime(secs),
    }
}

/// `text` with a line feed in place of each space.
pub open spec fn line_broken(text: Seq<char>) -> Seq<char> {
    text.map_values(|c: char| if c == ' ' { '\n' } else { c })
}

/// The title that names the operating system: its long version with one
/// word on each line, or `Unknown` where the system does not tell it.
pub open spec fn os_title_text(version: Option<Seq<char>>) -> Seq<char> {
    match version {
        None => seq!['U', 'n', 'k', 'n', 'o', 'w', 'n'],
        Some(name) => line_broken(name),
    }
}

/// Renders the long version of the operating system as a title.
pub fn os_title(version: Option<&str>) -> (title: String)
    ensures
        title@ == os_title_text(
            match version {
                None => None,
                Some(name) => Some(name@),
            },
        ),
{
    match version {
        None => {
            proof {
                reveal_strlit("Unknown");
            }
            let title = String::from_str("Unknown");
            assert(title@ =~= seq!['U', 'n', 'k', 'n', 'o', 'w', 'n']);
            title
        },
        Some(name) => {
            let n = name.unicode_len();
            let mut title = String::new();
            let mut i: usize = 0;
            proof {
                reveal_strlit("\n");
            }
            while i < n
                invariant
                    i <= n == name@.len(),
                    title@ == line_broken(name@).subrange(0, i as int),
                    "\n"@ == seq!['\n'],
                decreases n - i,
            {
                let c = name.get_char(i);
                if c == ' ' {
                    title.append("\n");
                } else {
                    title.append(name.substring_char(i, i + 1));
                }
                i = i + 1;
                assert(title@ =~= line_broken(name@).subrange(0, i as int));
            }
            assert(title@ =~= line_broken(name@));
            title
        },
    }
}

/// The tenths of a gigabyte shown for `bytes` are the nearest to the exact
/// amount, the even count where two are equally near, and they fit in 64
/// bits for every amount that does.
pub proof fn lemma_memory_tenths_nearest(bytes: nat)
    ensures
        is_nearest_even(memory_tenths(bytes), bytes * 10, GIGABYTE as nat),
        bytes <= u64::MAX ==> memory_tenths(bytes) <= u64::MAX,
{
    lemma_round_half_even_nearest(bytes * 10, GIGABYTE as nat);
}

/// The text of a CPU load is a decimal numeral followed by a percent sign,
/// and the numeral denotes the whole number nearest to the load.
pub proof fn lemma_cpu_text_shape(bits: u32)
    requires
        is_percentage(bits),
    ensures
        cpu_text(bits).len() >= 2,
        cpu_text(bits).last() == '%',
        is_numeral(cpu_text(bits).drop_last()),
        decimal_value(cpu_text(bits).drop_last()) == whole_percent(bits),
        is_nearest_even(whole_percent(bits), numerator(bits), denominator(bits)),
{
    lemma_decimal_numeral(whole_percent(bits));
    lemma_whole_percent_nearest(bits);
    assert(cpu_text(bits).drop_last() =~= decimal(whole_percent(bits)));
}

/// The text of memory in use is a decimal numeral, a point, one digit and
/// `GB`; numeral and digit together denote the tenths of a gigabyte nearest
/// to the amount.
pub proof fn lemma_memory_text_shape(bytes: nat)
    ensures
        ({
            let text = memory_text(bytes);
            let n = text.len() as int;
            &&& n >= 5
            &&& is_numeral(text.subrange(0, n - 4))
            &&& text[n - 4] == '.'
            &&& is_digit(text[n - 3])
            &&& text[n - 2] == 'G'
            &&& text[n - 1] == 'B'
            &&& decimal_value(text.subrange(0, n - 4)) * 10 + digit_value(text[n - 3])
                == memory_tenths(bytes)
        }),
        is_nearest_even(memory_tenths(bytes), bytes * 10, GIGABYTE as nat),
{
    let t = memory_tenths(bytes);
    let text = memory_text(bytes);
    let n = text.len() as int;
    lemma_decimal_numeral(t / 10);
    lemma_digit_char((t % 10) as int);
    lemma_memory_tenths_nearest(bytes);
    assert(text.subrange(0, n - 4) =~= decimal(t / 10));
}

/// Days, hours, minutes and seconds of an uptime add up to it, and hours,
/// minutes and seconds stay below 24, 60 and 60.
pub proof fn lemma_uptime_parts(secs: nat)
    ensures
        uptime_days(secs) * 86400 + uptime_hours(secs) * 3600 + uptime_minutes(secs) * 60
            + uptime_seconds(secs) == secs,
        uptime_hours(secs) < 24,
        uptime_minutes(secs) < 60,
        uptime_seconds(secs) < 60,
{
}

/// The lines of an uptime: the days as a numeral, then `d`, a space, the
/// hours in exactly two digits and `h`; below, the minutes in exactly two
/// digits, `m`, a space, the seconds in exactly two digits and `s`.
pub proof fn lemma_uptime_text_shape(secs: nat)
    ensures
        ({
            let first = uptime_primary(secs);
            let days = decimal(uptime_days(secs));
            let k = days.len() as int;
            &&& is_numeral(days)
            &&& decimal_value(days) == uptime_days(secs)
            &&& first.len() == k + 5
            &&& first.subrange(0, k) == days
            &&& first[k] == 'd'
            &&& first[k + 1] == ' '
            &&& first.subrange(k + 2, k + 4) == padded2(uptime_hours(secs))
            &&& first[k + 4] == 'h'
        }),
        ({
            let second = uptime_secondary(secs);
            &&& second.len() == 7
            &&& second.subrange(0, 2) == padded2(uptime_minutes(secs))
            &&& second[2] == 'm'
            &&& second[3] == ' '
            &&& second.subrange(4, 6) == padded2(uptime_seconds(secs))
            &&& second[6] == 's'
        }),
        padded2(uptime_hours(secs)).len() == 2 && is_numeral(padded2(uptime_hours(secs)))
            && decimal_value(padded2(uptime_hours(secs))) == uptime_hours(secs),
        padded2(uptime_minutes(secs)).len() == 2 && is_numeral(padded2(uptime_minutes(secs)))
            && decimal_value(padded2(uptime_minutes(secs))) == uptime_minutes(secs),
        padded2(uptime_seconds(secs)).len() == 2 && is_numeral(padded2(uptime_seconds(secs)))
            && decimal_value(padded2(uptime_seconds(secs))) == uptime_seconds(secs),
{
    lemma_uptime_parts(secs);
    lemma_decimal_numeral(uptime_days(secs));
    lemma_padded2_numeral(uptime_hours(secs));
    lemma_padded2_numeral(uptime_minutes(secs));
    lemma_padded2_numeral(uptime_seconds(secs));
    let first = uptime_primary(secs);
    let days = decimal(uptime_days(secs));
    let k = days.len() as int;
    assert(first.subrange(0, k) =~= days);
    assert(first.subrange(k + 2, k + 4) =~= padded2(uptime_hours(secs)));
    let second = uptime_secondary(secs);
    assert(second.subrange(0, 2) =~= padded2(uptime_minutes(secs)));
    assert(second.subrange(4, 6) =~= padded2(uptime_seconds(secs)));
}

/// Every display text is short: the text of a CPU load has at most 4
/// characters, that of memory in use at most 15, and of the lines of an
/// uptime the first has at most 20 and the second exactly 7.
pub proof fn lemma_display_is_short(sample: Sample)
    requires
        sample.valid(),
    ensures
        display_of(sample).primary.len() <= (match sample {
            Sample::Cpu(_) => 4nat,
            Sample::Memory(_) => 15nat,
            Sample::Uptime(_) => 20nat,
        }),
        display_of(sample).secondary matches Some(second) ==> second.len() == 7,
{
    assert(ten_to(20) == 100_000_000_000_000_000_000) by {
        reveal_with_fuel(ten_to, 21);
    }
    assert(ten_to(15) == 1_000_000_000_000_000) by {
        reveal_with_fuel(ten_to, 16);
    }
    assert(ten_to(11) == 100_000_000_000) by {
        reveal_with_fuel(ten_to, 12);
    }
    assert(ten_to(3) == 1000) by {
        reveal_with_fuel(ten_to, 4);
    }
    match sample {
        Sample::Cpu(usage) => {
            lemma_whole_percent_nearest(usage.spec_bits());
            lemma_decimal_len(whole_percent(usage.spec_bits()), 3);
        },
        Sample::Memory(bytes) => {
            let tenths = memory_tenths(bytes as nat);
            lemma_memory_tenths_nearest(bytes as nat);
            assert(tenths / 10 < 100_000_000_000);
            lemma_decimal_len(tenths / 10, 11);
        },
        Sample::Uptime(secs) => {
            lemma_uptime_text_shape(secs as nat);
            lemma_decimal_len(uptime_days(secs as nat), 15);
        },
    }
}

/// Rendering is a function of the sample: two texts rendered from one sample
/// show the same lines.
pub proof fn lemma_format_deterministic(sample: Sample, first: DisplayText, second: DisplayText)
    requires
        first@ == display_of(sample),
        second@ == display_of(sample),
    ensures
        first@ == second@,
        first@.title() == second@.title(),
{
}

} // verus!
