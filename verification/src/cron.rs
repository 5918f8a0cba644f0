//! Five-field cron expressions: minute, hour, day of month, month and day of
//! week (Sunday is 0). A field is `*` or a comma-separated list of single
//! values, ranges `a-b` and steps `*/n` or `a-b/n`.

use crate::clock::Moment;
use crate::text::{
    chars_of, find_from, next_index, parse_number, parse_u32, split, split_on, split_words,
    subvec, trim, trimmed, views, words,
};
use vstd::prelude::*;

verus! {
/// Whether `val` lies in the range `a-b` that `range` writes, a whole number
/// of steps from `a`.
pub open spec fn range_matches(range: Seq<char>, val: u32, step: u32) -> bool {
    let dash = next_index(range, '-', 0);
    dash < range.len() && match (parse_u32(range.take(dash)), parse_u32(range.skip(dash + 1))) {
        (Some(a), Some(b)) => a <= val <= b && (val - a) % (step as int) == 0,
        _ => false,
    }
}

/// Whether one member of a field's list matches `val`. `range_start` is the
/// least value of the field, from which `*/n` counts its steps.
pub open spec fn part_matches(part: Seq<char>, val: u32, range_start: u32) -> bool {
    let p = trim(part);
    let slash = next_index(p, '/', 0);
    if slash < p.len() {
        match parse_u32(p.skip(slash + 1)) {
            Some(step) => step != 0 && if p.take(slash) == seq!['*'] {
                val >= range_start && (val - range_start) % (step as int) == 0
            } else {
                range_matches(p.take(slash), val, step)
            },
            None => false,
        }
    } else if next_index(p, '-', 0) < p.len() {
        range_matches(p, val, 1)
    } else {
        parse_u32(p) == Some(val)
    }
}

/// Whether a field of a cron expression matches `val`.
pub open spec fn field_matches(field: Seq<char>, val: u32, range_start: u32) -> bool {
    field == seq!['*'] || exists|i: int|
        0 <= i < split(field, ',').len() && part_matches(
            #[trigger] split(field, ',')[i],
            val,
            range_start,
        )
}

/// The values that the five fields are held against.
pub open spec fn field_values(now: Moment) -> Seq<u32> {
    seq![now.local.minute, now.local.hour, now.local.day, now.local.month, now.weekday]
}

/// The least value of each of the five fields.
pub open spec fn field_starts() -> Seq<u32> {
    seq![0u32, 0u32, 1u32, 1u32, 0u32]
}

/// Whether a cron expression matches a moment: it has exactly five fields,
/// and each matches its value.
pub open spec fn expr_matches(expr: Seq<char>, now: Moment) -> bool {
    let fields = words(expr);
    fields.len() == 5 && forall|i: int|
        0 <= i < 5 ==> field_matches(#[trigger] fields[i], field_values(now)[i], field_starts()[i])
}

fn range_check(range: &[char], val: u32, step: u32) -> (r: bool)
    requires
        step != 0,
    ensures
        r == range_matches(range@, val, step),
{
    let dash = find_from(range, '-', 0);
    if dash >= range.len() {
        return false;
    }
    let lo = subvec(range, 0, dash);
    let hi = subvec(range, dash + 1, range.len());
    match (parse_number(lo.as_slice()), parse_number(hi.as_slice())) {
        (Some(a), Some(b)) => val >= a && val <= b && (val - a) % step == 0,
        _ => false,
    }
}

fn part_check(part: &[char], val: u32, range_start: u32) -> (r: bool)
    ensures
        r == part_matches(part@, val, range_start),
{
    let p = trimmed(part);
    let slash = find_from(p.as_slice(), '/', 0);
    if slash < p.len() {
        let range_part = subvec(p.as_slice(), 0, slash);
        let step_str = subvec(p.as_slice(), slash + 1, p.len());
        match parse_number(step_str.as_slice()) {
            Some(step) => {
                if step == 0 {
                    false
                } else if range_part.len() == 1 && range_part[0] == '*' {
                    proof {
                        assert(range_part@ == seq!['*']);
                    }
                    val >= range_start && (val - range_start) % step == 0
                } else {
                    range_check(range_part.as_slice(), val, step)
                }
            },
            None => false,
        }
    } else {
        let dash = find_from(p.as_slice(), '-', 0);
        if dash < p.len() {
            range_check(p.as_slice(), val, 1)
        } else {
            match parse_number(p.as_slice()) {
                Some(n) => n == val,
                None => false,
            }
        }
    }
}

/// Whether one field of a cron expression matches `val`; `range_start` is
/// the least value that the field can take.
pub fn cron_field_matches(field: &str, val: u32, range_start: u32) -> (r: bool)
    ensures
        r == field_matches(field@, val, range_start),
{
    let f = chars_of(field);
    field_check(f.as_slice(), val, range_start)
}

fn field_check(f: &[char], val: u32, range_start: u32) -> (r: bool)
    ensures
        r == field_matches(f@, val, range_start),
{
    if f.len() == 1 && f[0] == '*' {
        proof {
            assert(f@ == seq!['*']);
        }
        return true;
    }
    let parts = split_on(f, ',');
    let ghost p = split(f@, ',');
    let mut i: usize = 0;
    while i < parts.len()
        invariant
            i <= parts@.len(),
            views(parts@) == p,
            p == split(f@, ','),
            forall|j: int| 0 <= j < i ==> !part_matches(#[trigger] p[j], val, range_start),
        decreases parts@.len() - i,
    {
        if part_check(parts[i].as_slice(), val, range_start) {
            proof {
                assert(part_matches(split(f@, ',')[i as int], val, range_start));
            }
            return true;
        }
        i += 1;
    }
    false
}

/// Whether a cron expression matches the local date and time of `now`.
pub fn cron_matches(expr: &str, now: &Moment) -> (r: bool)
    ensures
        r == expr_matches(expr@, *now),
{
    let e = chars_of(expr);
    let fields = split_words(e.as_slice());
    if fields.len() != 5 {
        return false;
    }
    let values: [u32; 5] = [
        now.local.minute,
        now.local.hour,
        now.local.day,
        now.local.month,
        now.weekday,
    ];
    let starts: [u32; 5] = [0, 0, 1, 1, 0];
    let ghost w = words(expr@);
    let mut i: usize = 0;
    while i < 5
        invariant
            i <= 5,
            fields@.len() == 5,
            views(fields@) == w,
            w == words(expr@),
            values@ == field_values(*now),
            starts@ == field_starts(),
            forall|j: int|
                0 <= j < i ==> field_matches(
                    #[trigger] w[j],
                    field_values(*now)[j],
                    field_starts()[j],
                ),
        decreases 5 - i,
    {
        proof {
            assert(views(fields@)[i as int] == fields@[i as int]@);
        }
        if !field_check(fields[i].as_slice(), values[i], starts[i]) {
            return false;
        }
        i += 1;
    }
    true
}

} // verus!
