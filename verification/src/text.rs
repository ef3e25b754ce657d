//! Numbers and clock times as text.

use vstd::prelude::*;

verus! {

/// The character of a decimal digit.
pub open spec fn digit(d: nat) -> char
    recommends
        d < 10,
{
    seq!['0', '1', '2', '3', '4', '5', '6', '7', '8', '9'][d as int]
}

/// A number in decimal, without leading zeros.
pub open spec fn decimal(n: nat) -> Seq<char>
    decreases n,
{
    if n < 10 {
        seq![digit(n)]
    } else {
        decimal(n / 10).push(digit(n % 10))
    }
}

/// A number below one hundred in two decimal digits.
pub open spec fn two_digits(n: nat) -> Seq<char> {
    seq![digit(n / 10), digit(n % 10)]
}

/// A number of seconds as `hours:minutes:seconds`, or as `minutes:seconds` if it is less than an
/// hour.
pub open spec fn clock_face(secs: nat) -> Seq<char> {
    let short = two_digits(secs / 60 % 60) + seq![':'] + two_digits(secs % 60);
    if secs >= 3600 {
        decimal(secs / 3600) + seq![':'] + short
    } else {
        short
    }
}

/// The number that decimal digits stand for.
pub open spec fn decimal_value(digits: Seq<char>) -> nat
    decreases digits.len(),
{
    if digits.len() == 0 {
        0
    } else {
        10 * decimal_value(digits.drop_last()) + ((digits.last() as nat) - ('0' as nat)) as nat
    }
}

/// The decimal text of a number reads back as that number.
pub proof fn law_decimal_reads_back(n: nat)
    ensures
        decimal_value(decimal(n)) == n,
    decreases n,
{
    if n < 10 {
        assert(decimal(n).drop_last() =~= Seq::<char>::empty());
        assert(decimal_value(decimal(n).drop_last()) == 0);
    } else {
        law_decimal_reads_back(n / 10);
        assert(decimal(n).drop_last() =~= decimal(n / 10));
    }
}

/// The text of a decimal digit.
fn digit_str(d: u8) -> (text: &'static str)
    requires
        d < 10,
    ensures
        text@ == seq![digit(d as nat)],
{
    proof {
        reveal_strlit("0");
        reveal_strlit("1");
        reveal_strlit("2");
        reveal_strlit("3");
        reveal_strlit("4");
        reveal_strlit("5");
        reveal_strlit("6");
        reveal_strlit("7");
        reveal_strlit("8");
        reveal_strlit("9");
    }
    match d {
        0 => "0",
        1 => "1",
        2 => "2",
        3 => "3",
        4 => "4",
        5 => "5",
        6 => "6",
        7 => "7",
        8 => "8",
        _ => "9",
    }
}

/// Appends a number in decimal.
pub fn push_decimal(out: &mut String, n: u64)
    ensures
        final(out)@ == old(out)@ + decimal(n as nat),
    decreases n,
{
    if n >= 10 {
        push_decimal(out, n / 10);
    }
    out.append(digit_str((n % 10) as u8));
}

/// Appends a number below one hundred in two digits.
fn push_two_digits(out: &mut String, n: u64)
    requires
        n < 100,
    ensures
        final(out)@ == old(out)@ + two_digits(n as nat),
{
    out.append(digit_str((n / 10) as u8));
    out.append(digit_str((n % 10) as u8));
}

/// A number of seconds as a clock shows it.
pub fn format_clock(secs: u64) -> (text: String)
    ensures
        text@ == clock_face(secs as nat),
{
    proof {
        reveal_strlit(":");
    }
    let mut text = String::new();
    if secs >= 3600 {
        push_decimal(&mut text, secs / 3600);
        text.append(":");
    }
    push_two_digits(&mut text, secs / 60 % 60);
    text.append(":");
    push_two_digits(&mut text, secs % 60);
    text
}

/// These characters are a number in decimal: digits that stand for it, without a needless zero in
/// front.
pub open spec fn is_number(chars: Seq<char>, n: nat) -> bool {
    &&& chars.len() > 0
    &&& forall|i: int| 0 <= i < chars.len() ==> '0' <= #[trigger] chars[i] <= '9'
    &&& chars[0] == '0' ==> chars.len() == 1
    &&& decimal_value(chars) == n
}

/// The number that two digits stand for.
pub open spec fn pair_value(tens: char, ones: char) -> int {
    10 * (tens as int - '0' as int) + (ones as int - '0' as int)
}

/// These characters are a clock time of so many seconds: two digits of minutes and two of seconds,
/// both below sixty, and in front of them the hours if there are any. Hours, minutes and seconds
/// together are the time.
pub open spec fn reads_as(face: Seq<char>, secs: int) -> bool {
    let n = face.len() as int;
    let hours = if n == 5 {
        0
    } else {
        decimal_value(face.take(n - 6)) as int
    };
    let minutes = pair_value(face[n - 5], face[n - 4]);
    let seconds = pair_value(face[n - 2], face[n - 1]);
    &&& n == 5 || (n >= 7 && face[n - 6] == ':' && is_number(face.take(n - 6), hours as nat)
        && hours > 0)
    &&& face[n - 3] == ':'
    &&& '0' <= face[n - 5] <= '9' && '0' <= face[n - 4] <= '9'
    &&& '0' <= face[n - 2] <= '9' && '0' <= face[n - 1] <= '9'
    &&& 0 <= minutes < 60
    &&& 0 <= seconds < 60
    &&& 3600 * hours + 60 * minutes + seconds == secs
}

/// A number is written in digits that stand for it, without a needless zero in front.
pub proof fn law_decimal_is_the_number(n: nat)
    ensures
        is_number(decimal(n), n),
    decreases n,
{
    law_decimal_reads_back(n);
    if n >= 10 {
        law_decimal_is_the_number(n / 10);
        let front = decimal(n / 10);
        assert(decimal(n)[0] == front[0]);
        if n / 10 < 10 {
            assert(front[0] == digit(n / 10));
        } else {
            assert(front.len() == decimal(n / 10 / 10).len() + 1);
            law_decimal_is_the_number(n / 10 / 10);
        }
    }
}

/// Two digits stand for their number.
proof fn lemma_two_digits_value(n: nat)
    requires
        n < 100,
    ensures
        two_digits(n).len() == 2,
        '0' <= two_digits(n)[0] <= '9',
        '0' <= two_digits(n)[1] <= '9',
        pair_value(two_digits(n)[0], two_digits(n)[1]) == n,
{
    lemma_digit_value(n / 10);
    lemma_digit_value(n % 10);
}

/// A digit stands for its number.
proof fn lemma_digit_value(d: nat)
    requires
        d < 10,
    ensures
        '0' <= digit(d) <= '9',
        digit(d) as int == '0' as int + d,
{
}

/// A clock time tells the seconds that it stands for.
pub proof fn law_clock_face_tells_the_seconds(secs: nat)
    ensures
        reads_as(clock_face(secs), secs as int),
{
    let face = clock_face(secs);
    let n = face.len() as int;
    let minutes = two_digits(secs / 60 % 60);
    let seconds = two_digits(secs % 60);
    lemma_two_digits_value(secs / 60 % 60);
    lemma_two_digits_value(secs % 60);
    let short = minutes + seq![':'] + seconds;
    let hours = secs / 3600;
    assert(3600 * hours + 60 * (secs / 60 % 60) + secs % 60 == secs);
    if secs >= 3600 {
        let front = decimal(hours);
        assert(is_number(front, hours)) by {
            law_decimal_is_the_number(hours);
        }
        assert(n == front.len() + 6);
        assert(face.take(n - 6) =~= front);
        assert(face[n - 6] == ':');
        assert(face.skip(n - 5) =~= short);
    } else {
        assert(hours == 0);
        assert(face.skip(n - 5) =~= short);
    }
    assert(face[n - 5] == face.skip(n - 5)[0] && face[n - 4] == face.skip(n - 5)[1]);
    assert(face[n - 3] == face.skip(n - 5)[2]);
    assert(face[n - 2] == face.skip(n - 5)[3] && face[n - 1] == face.skip(n - 5)[4]);
}

} // verus!
