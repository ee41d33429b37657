//! Texts and colours of the heads-up display and of the end-of-level screens.
use vstd::prelude::*;
use crate::game::LevelProgress;
use crate::palette::Palette;

verus! {

/// The character of decimal digit `d`.
pub open spec fn digit_char(d: int) -> char {
    (48 + d) as char
}

/// `n` written in decimal, without leading zeros.
pub open spec fn decimal(n: nat) -> Seq<char>
    decreases n,
{
    if n < 10 {
        seq![digit_char(n as int)]
    } else {
        decimal(n / 10).push(digit_char((n % 10) as int))
    }
}

/// `n` written in decimal and padded with zeros to at least two characters.
pub open spec fn two_digits(n: nat) -> Seq<char> {
    if n < 10 {
        seq!['0', digit_char(n as int)]
    } else {
        decimal(n)
    }
}

/// The countdown text for `seconds` whole seconds and `hundredths`
/// hundredths of a second, such as `09.25s`.
pub open spec fn clock_text(seconds: nat, hundredths: nat) -> Seq<char> {
    two_digits(seconds) + seq!['.'] + two_digits(hundredths) + seq!['s']
}

/// The number that a string of decimal digits denotes.
pub open spec fn digits_value(s: Seq<char>) -> int
    decreases s.len(),
{
    if s.len() == 0 {
        0
    } else {
        digits_value(s.drop_last()) * 10 + (s.last() as int - 48)
    }
}

/// Whether every character of `s` is a decimal digit.
pub open spec fn all_digits(s: Seq<char>) -> bool {
    forall|i: int| 0 <= i < s.len() ==> '0' <= #[trigger] s[i] <= '9'
}

/// `decimal(n)` is the decimal numeral of `n`: nonempty, all digits, with no
/// leading zero unless `n` is zero, and denoting `n`.
pub proof fn lemma_decimal_is_numeral(n: nat)
    ensures
        decimal(n).len() >= 1,
        all_digits(decimal(n)),
        digits_value(decimal(n)) == n,
        n >= 1 ==> decimal(n)[0] != '0',
        n < 10 <==> decimal(n).len() == 1,
        n < 100 ==> decimal(n).len() <= 2,
    decreases n,
{
    assert((digit_char((n % 10) as int) as int) == 48 + n % 10);
    if n < 10 {
        assert((digit_char(n as int) as int) == 48 + n);
        assert(decimal(n).drop_last() =~= Seq::<char>::empty());
        assert(digits_value(decimal(n)) == digits_value(Seq::<char>::empty()) * 10 + (decimal(
            n,
        ).last() as int - 48));
    }
    if n >= 10 {
        lemma_decimal_is_numeral(n / 10);
        vstd::arithmetic::div_mod::lemma_fundamental_div_mod(n as int, 10);
        let s = decimal(n);
        assert(s.drop_last() =~= decimal(n / 10));
        assert(s[0] == decimal(n / 10)[0]);
        assert(s.last() == digit_char((n % 10) as int));
        assert(digits_value(s) == digits_value(decimal(n / 10)) * 10 + (s.last() as int - 48));
        assert(digits_value(s) == (n / 10) * 10 + n % 10);
    }
}

/// The clock fields are padded to two digits with a leading zero only when
/// the number has one digit: a number of two or more digits is written as is,
/// and every field denotes its number.
pub proof fn lemma_two_digits_pads_only_single_digits(n: nat)
    ensures
        n >= 10 ==> two_digits(n) == decimal(n),
        n >= 10 ==> two_digits(n)[0] != '0',
        n < 10 ==> two_digits(n) == seq!['0', digit_char(n as int)],
        two_digits(n).len() >= 2,
        all_digits(two_digits(n)),
        digits_value(two_digits(n)) == n,
{
    lemma_decimal_is_numeral(n);
    if n < 10 {
        let s = two_digits(n);
        assert((digit_char(n as int) as int) == 48 + n);
        assert(s.drop_last() =~= seq!['0']);
        assert(seq!['0'].drop_last() =~= Seq::<char>::empty());
        assert(('0' as int) == 48);
        assert(digits_value(seq!['0']) == digits_value(Seq::<char>::empty()) * 10 + ('0' as int - 48));
        assert(digits_value(s) == digits_value(seq!['0']) * 10 + (s.last() as int - 48));
    }
}

/// The countdown text reads back as its two numbers: the whole seconds before
/// the point, the two-digit hundredths after it, and an `s` at the end.
pub proof fn lemma_clock_text_reads_back(seconds: nat, hundredths: nat)
    requires
        hundredths < 100,
    ensures
        ({
            let t = clock_text(seconds, hundredths);
            &&& t.len() >= 6
            &&& t[t.len() - 1] == 's'
            &&& t[t.len() - 4] == '.'
            &&& all_digits(t.subrange(0, t.len() - 4))
            &&& digits_value(t.subrange(0, t.len() - 4)) == seconds
            &&& all_digits(t.subrange(t.len() - 3, t.len() - 1))
            &&& digits_value(t.subrange(t.len() - 3, t.len() - 1)) == hundredths
        }),
{
    lemma_two_digits_pads_only_single_digits(seconds);
    lemma_two_digits_pads_only_single_digits(hundredths);
    lemma_decimal_is_numeral(hundredths);
    let a = two_digits(seconds);
    let b = two_digits(hundredths);
    let t = clock_text(seconds, hundredths);
    assert(b.len() == 2);
    assert(t.subrange(0, t.len() - 4) =~= a);
    assert(t.subrange(t.len() - 3, t.len() - 1) =~= b);
}

/// Calls `String::push`, which appends one character.
#[verifier::external_body]
fn push_char(s: &mut String, c: char)
    ensures
        final(s)@ == old(s)@.push(c),
{
    s.push(c);
}

fn push_digit(s: &mut String, d: u32)
    requires
        d < 10,
    ensures
        final(s)@ == old(s)@.push(digit_char(d as int)),
{
    let c = (48 + d as u8) as char;
    push_char(s, c);
}

fn push_decimal(s: &mut String, n: u32)
    ensures
        final(s)@ == old(s)@ + decimal(n as nat),
    decreases n,
{
    if n >= 10 {
        push_decimal(s, n / 10);
    }
    push_digit(s, n % 10);
    proof {
        if n < 10 {
            assert(n % 10 == n);
        }
    }
    assert(s@ =~= old(s)@ + decimal(n as nat));
}

fn push_two_digits(s: &mut String, n: u32)
    ensures
        final(s)@ == old(s)@ + two_digits(n as nat),
{
    if n < 10 {
        push_char(s, '0');
    }
    push_decimal(s, n);
    assert(s@ =~= old(s)@ + two_digits(n as nat));
}

/// The countdown text for `seconds` whole seconds and `hundredths`
/// hundredths of a second: each zero-padded to two digits, then `s`.
pub fn format_clock(seconds: u32, hundredths: u32) -> (text: String)
    ensures
        text@ == clock_text(seconds as nat, hundredths as nat),
{
    let mut text = String::new();
    push_two_digits(&mut text, seconds);
    push_char(&mut text, '.');
    push_two_digits(&mut text, hundredths);
    push_char(&mut text, 's');
    assert(text@ =~= clock_text(seconds as nat, hundredths as nat));
    text
}

/// The title of the game-over screen.
pub open spec fn game_over_text(time_expired: bool) -> Seq<char> {
    if time_expired {
        "TIME EXPIRED!"@
    } else {
        "SHIP DESTROYED!"@
    }
}

/// The title of the game-over screen: the clock ran out, or the ship crashed.
pub fn game_over_reason(time_expired: bool) -> (reason: &'static str)
    ensures
        reason@ == game_over_text(time_expired),
{
    if time_expired {
        "TIME EXPIRED!"
    } else {
        "SHIP DESTROYED!"
    }
}

/// The title of the victory screen.
pub open spec fn victory_text(progress: LevelProgress) -> Seq<char> {
    if progress.campaign_cleared() {
        "MISSION COMPLETE! ALL TUTORIALS CLEARED!"@
    } else {
        "LEVEL CLEARED!"@
    }
}

/// The title of the victory screen.
pub fn victory_message(progress: &LevelProgress) -> (message: &'static str)
    ensures
        message@ == victory_text(*progress),
{
    if progress.is_campaign_cleared() {
        "MISSION COMPLETE! ALL TUTORIALS CLEARED!"
    } else {
        "LEVEL CLEARED!"
    }
}

/// The colour of a planet's pull-radius ring: slate while a blast has
/// switched its pull off, plum otherwise.
pub fn pull_radius_palette(disabled: bool) -> (color: Palette)
    ensures
        color == if disabled {
            Palette::Slate
        } else {
            Palette::Plum
        },
{
    if disabled {
        Palette::Slate
    } else {
        Palette::Plum
    }
}

} // verus!
