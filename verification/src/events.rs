//! The one multiplexed event stream the orchestrator drains: decoded user
//! actions and playback notifications — plus the clock formatting the
//! progress display uses.

use vstd::prelude::*;

use crate::keyboard::Action;
use crate::musicplayer::PlayerSendEvent;
use crate::text::push_char;

verus! {

/// Everything that can arrive on the orchestrator's inbound channel.
pub enum ApplicationEvent {
    Action(Action),
    PlayerEvent(PlayerSendEvent),
}

pub open spec fn spec_digit_char(d: int) -> char {
    if d == 0 {
        '0'
    } else if d == 1 {
        '1'
    } else if d == 2 {
        '2'
    } else if d == 3 {
        '3'
    } else if d == 4 {
        '4'
    } else if d == 5 {
        '5'
    } else if d == 6 {
        '6'
    } else if d == 7 {
        '7'
    } else if d == 8 {
        '8'
    } else {
        '9'
    }
}

/// The decimal digits of `n`, most significant first.
pub open spec fn spec_decimal(n: int) -> Seq<char>
    decreases n,
{
    if n < 10 {
        seq![spec_digit_char(n)]
    } else {
        spec_decimal(n / 10).push(spec_digit_char(n % 10))
    }
}

/// `n` in decimal, left-padded with `0` to at least two digits.
pub open spec fn spec_two_digits(n: int) -> Seq<char> {
    if n < 10 {
        seq!['0', spec_digit_char(n)]
    } else {
        spec_decimal(n)
    }
}

/// `ms` milliseconds as `MM:SS`, with a leading `HH:` field once a full
/// hour is reached; minutes and seconds wrap at sixty, each field at least
/// two digits.
pub open spec fn spec_duration_string(ms: u64) -> Seq<char> {
    let seconds = ms as int / 1000;
    let minutes = seconds / 60;
    let hours = minutes / 60;
    let tail = spec_two_digits(minutes % 60) + seq![':'] + spec_two_digits(seconds % 60);
    if hours > 0 {
        spec_two_digits(hours) + seq![':'] + tail
    } else {
        tail
    }
}

fn digit_char(d: u64) -> (c: char)
    requires
        d < 10,
    ensures
        c == spec_digit_char(d as int),
{
    match d {
        0 => '0',
        1 => '1',
        2 => '2',
        3 => '3',
        4 => '4',
        5 => '5',
        6 => '6',
        7 => '7',
        8 => '8',
        _ => '9',
    }
}

/// Appends `n` in decimal.
pub fn push_decimal(s: &mut String, n: u64)
    ensures
        final(s)@ == old(s)@ + spec_decimal(n as int),
    decreases n,
{
    if n < 10 {
        push_char(s, digit_char(n));
        proof {
            assert(final(s)@ =~= old(s)@ + spec_decimal(n as int));
        }
    } else {
        push_decimal(s, n / 10);
        push_char(s, digit_char(n % 10));
        proof {
            assert(final(s)@ =~= old(s)@ + spec_decimal(n as int));
        }
    }
}

fn push_two_digits(s: &mut String, n: u64)
    ensures
        final(s)@ == old(s)@ + spec_two_digits(n as int),
{
    if n < 10 {
        push_char(s, '0');
        push_char(s, digit_char(n));
        proof {
            assert(final(s)@ =~= old(s)@ + spec_two_digits(n as int));
        }
    } else {
        push_decimal(s, n);
    }
}

/// Renders a duration for the progress bar, as the clock spec above says.
pub fn format_ms_to_duration_string(ms: u64) -> (r: String)
    ensures
        r@ == spec_duration_string(ms),
{
    let seconds = ms / 1000;
    let minutes = seconds / 60;
    let hours = minutes / 60;
    let mut formatted = String::new();
    if hours > 0 {
        push_two_digits(&mut formatted, hours);
        push_char(&mut formatted, ':');
    }
    push_two_digits(&mut formatted, minutes % 60);
    push_char(&mut formatted, ':');
    push_two_digits(&mut formatted, seconds % 60);
    proof {
        assert(formatted@ =~= spec_duration_string(ms));
    }
    formatted
}

} // verus!
