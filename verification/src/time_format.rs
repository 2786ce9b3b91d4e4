//! Rendering of a duration in seconds as a human-readable string, either
//! compact (`"01:05"`, `"01:01:01"`, `"5 seconds"`) or verbose (`"1h 1m 1s"`).

use vstd::prelude::*;

verus! {

/// The two output styles of [`format_time`].
#[derive(Clone, Copy, PartialEq, Eq, Structural, Debug)]
pub enum TimeFormat {
    Verbose,
    Compact,
}

/// The character for a single decimal digit.
pub open spec fn digit_char(d: nat) -> char
    recommends
        d < 10,
{
    if d == 0 {
        '0'
    } else if d == 1 {
        '1'
    } else if d == 2 {
        '2'
    } else if d == 3 {
        '3'
    } else if d == 4 {
        '4'
    } else if d == 5 {
        '5'
    } else if d == 6 {
        '6'
    } else if d == 7 {
        '7'
    } else if d == 8 {
        '8'
    } else {
        '9'
    }
}

/// The decimal rendering of `n`, without leading zeros (`0` renders as `"0"`).
pub open spec fn dec_digits(n: nat) -> Seq<char>
    decreases n,
{
    if n < 10 {
        seq![digit_char(n)]
    } else {
        dec_digits(n / 10).push(digit_char(n % 10))
    }
}

/// The decimal rendering of `n`, zero-padded on the left to at least two digits.
pub open spec fn padded2(n: nat) -> Seq<char> {
    if n < 10 {
        seq!['0'] + dec_digits(n)
    } else {
        dec_digits(n)
    }
}

/// Compact style: `HH:MM:SS` from one hour up, `MM:SS` from one minute up,
/// `"<n> seconds"` below one minute.
pub open spec fn compact_view(total: nat) -> Seq<char> {
    let hours = total / 3600;
    let minutes = (total % 3600) / 60;
    let seconds = total % 60;
    if hours > 0 {
        padded2(hours) + seq![':'] + padded2(minutes) + seq![':'] + padded2(seconds)
    } else if minutes > 0 {
        padded2(minutes) + seq![':'] + padded2(seconds)
    } else {
        dec_digits(seconds) + seq![' ', 's', 'e', 'c', 'o', 'n', 'd', 's']
    }
}

/// Verbose style: the non-zero components among hours, minutes and seconds,
/// each suffixed with its unit letter, joined by single spaces in descending
/// unit order; a zero duration still renders as `"0s"`.
pub open spec fn verbose_view(total: nat) -> Seq<char> {
    let hours = total / 3600;
    let minutes = (total % 3600) / 60;
    let seconds = total % 60;
    if total == 0 {
        seq!['0', 's']
    } else {
        let hour_part = if hours > 0 {
            dec_digits(hours).push('h')
        } else {
            Seq::<char>::empty()
        };
        let minute_part = if minutes > 0 {
            (if hours > 0 {
                seq![' ']
            } else {
                Seq::<char>::empty()
            }) + dec_digits(minutes).push('m')
        } else {
            Seq::<char>::empty()
        };
        let second_part = if seconds > 0 {
            (if hours > 0 || minutes > 0 {
                seq![' ']
            } else {
                Seq::<char>::empty()
            }) + dec_digits(seconds).push('s')
        } else {
            Seq::<char>::empty()
        };
        hour_part + minute_part + second_part
    }
}

/// What [`format_time`] returns for each style.
pub open spec fn spec_format_time(total: nat, format: TimeFormat) -> Seq<char> {
    match format {
        TimeFormat::Verbose => verbose_view(total),
        TimeFormat::Compact => compact_view(total),
    }
}

/// A decimal rendering is never empty.
pub proof fn lemma_dec_digits_nonempty(n: nat)
    ensures
        dec_digits(n).len() >= 1,
    decreases n,
{
    if n >= 10 {
        lemma_dec_digits_nonempty(n / 10);
    }
}

/// Both styles are defined for every duration, and the verbose style never
/// renders an empty string: a zero duration still produces `"0s"`.
pub proof fn lemma_format_time_nonempty(total: nat, format: TimeFormat)
    ensures
        spec_format_time(total, format).len() > 0,
{
    let hours = total / 3600;
    let minutes = (total % 3600) / 60;
    let seconds = total % 60;
    lemma_dec_digits_nonempty(hours);
    lemma_dec_digits_nonempty(minutes);
    lemma_dec_digits_nonempty(seconds);
}

fn digit_str(d: u64) -> (r: &'static str)
    requires
        d < 10,
    ensures
        r@ == seq![digit_char(d as nat)],
{
    proof {
        reveal_strlit("0");
        reveal_strlit("1");
        reveal_strlit("2");
        reveal_strlit("3");
        reveal_strlit("4");
        reveal_strlit("5");
        reveal_strlit("6");
        reveal_strlit("7");
        reveal_strlit("8");
        reveal_strlit("9");
    }
    let r: &'static str = if d == 0 {
        "0"
    } else if d == 1 {
        "1"
    } else if d == 2 {
        "2"
    } else if d == 3 {
        "3"
    } else if d == 4 {
        "4"
    } else if d == 5 {
        "5"
    } else if d == 6 {
        "6"
    } else if d == 7 {
        "7"
    } else if d == 8 {
        "8"
    } else {
        "9"
    };
    proof {
        assert(r@ =~= seq![digit_char(d as nat)]);
    }
    r
}

/// Appends the decimal rendering of `n` to `out`.
pub fn push_dec(out: &mut String, n: u64)
    ensures
        final(out)@ == old(out)@ + dec_digits(n as nat),
    decreases n,
{
    if n >= 10 {
        push_dec(out, n / 10);
    }
    out.append(digit_str(n % 10));
    proof {
        assert(final(out)@ =~= old(out)@ + dec_digits(n as nat));
    }
}

/// Appends the decimal rendering of `n`, zero-padded to at least two digits.
fn push_padded2(out: &mut String, n: u64)
    ensures
        final(out)@ == old(out)@ + padded2(n as nat),
{
    if n < 10 {
        proof {
            reveal_strlit("0");
        }
        out.append("0");
    }
    push_dec(out, n);
    proof {
        assert(final(out)@ =~= old(out)@ + padded2(n as nat));
    }
}

/// Renders `total_seconds` in the requested style. Defined for every input;
/// the verbose style never returns an empty string.
pub fn format_time(total_seconds: u64, format: TimeFormat) -> (r: String)
    ensures
        r@ == spec_format_time(total_seconds as nat, format),
        r@.len() > 0,
{
    let hours = total_seconds / 3600;
    let minutes = (total_seconds % 3600) / 60;
    let seconds = total_seconds % 60;
    let mut out = String::new();
    match format {
        TimeFormat::Verbose => {
            if total_seconds == 0 {
                proof {
                    reveal_strlit("0s");
                }
                out.append("0s");
                proof {
                    assert(out@ =~= verbose_view(total_seconds as nat));
                }
            } else {
                proof {
                    reveal_strlit("h");
                    reveal_strlit("m");
                    reveal_strlit("s");
                    reveal_strlit(" ");
                }
                if hours > 0 {
                    push_dec(&mut out, hours);
                    out.append("h");
                }
                if minutes > 0 {
                    if hours > 0 {
                        out.append(" ");
                    }
                    push_dec(&mut out, minutes);
                    out.append("m");
                }
                if seconds > 0 {
                    if hours > 0 || minutes > 0 {
                        out.append(" ");
                    }
                    push_dec(&mut out, seconds);
                    out.append("s");
                }
                proof {
                    assert(out@ =~= verbose_view(total_seconds as nat));
                }
            }
            proof {
                lemma_format_time_nonempty(total_seconds as nat, format);
            }
        },
        TimeFormat::Compact => {
            proof {
                reveal_strlit(":");
                reveal_strlit(" seconds");
            }
            if hours > 0 {
                push_padded2(&mut out, hours);
                out.append(":");
                push_padded2(&mut out, minutes);
                out.append(":");
                push_padded2(&mut out, seconds);
            } else if minutes > 0 {
                push_padded2(&mut out, minutes);
                out.append(":");
                push_padded2(&mut out, seconds);
            } else {
                push_dec(&mut out, seconds);
                out.append(" seconds");
            }
            proof {
                assert(out@ =~= compact_view(total_seconds as nat));
                lemma_format_time_nonempty(total_seconds as nat, format);
            }
        },
    }
    out
}

} // verus!
