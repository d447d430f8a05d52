use vstd::prelude::*;

verus! {

/// ASCII line feed.
pub const LINE_FEED: u8 = 10;

/// ASCII carriage return.
pub const CARRIAGE_RETURN: u8 = 13;

/// Index of the first line feed at or after `from`, or `s.len()` when the
/// rest of `s` holds none.
pub open spec fn line_break(s: Seq<u8>, from: int) -> int
    decreases s.len() - from,
{
    if from < 0 || from >= s.len() {
        s.len() as int
    } else if s[from] == LINE_FEED {
        from
    } else {
        line_break(s, from + 1)
    }
}

/// Byte bounds of the second newline-separated line of a report body,
/// with a trailing carriage return left out; `None` when the body has
/// fewer than two lines.
pub open spec fn second_line_bounds(s: Seq<u8>) -> Option<(int, int)> {
    let first_break = line_break(s, 0);
    if first_break + 1 < s.len() {
        let start = first_break + 1;
        let stop = line_break(s, start);
        if stop > start && s[stop - 1] == CARRIAGE_RETURN {
            Some((start, stop - 1))
        } else {
            Some((start, stop))
        }
    } else {
        None::<(int, int)>
    }
}

/// Index of the first line feed in `body` at or after `from`, or the
/// body's length when there is none.
fn find_line_feed(body: &Vec<u8>, from: usize) -> (r: usize)
    requires
        from <= body@.len(),
    ensures
        r == line_break(body@, from as int),
        from <= r <= body@.len(),
{
    let n = body.len();
    let mut i = from;
    while i < n
        invariant
            from <= i <= n,
            n == body@.len(),
            line_break(body@, from as int) == line_break(body@, i as int),
        decreases n - i,
    {
        if body[i] == LINE_FEED {
            return i;
        }
        i = i + 1;
    }
    i
}

/// Locates the METAR line inside a fetched report body: the first line is
/// a timestamp header and is discarded, the second line is the METAR.
/// Returns the line's byte bounds `(start, stop)`, with a trailing
/// carriage return left out; `None` when the body has fewer than two
/// lines, the `MissingMetarLine` condition.
pub fn metar_line_bounds(body: &Vec<u8>) -> (r: Option<(usize, usize)>)
    ensures
        match r {
            Some(p) => second_line_bounds(body@) == Some((p.0 as int, p.1 as int)) && p.0 <= p.1
                <= body@.len(),
            None => second_line_bounds(body@) is None,
        },
{
    let first_break = find_line_feed(body, 0);
    if first_break >= body.len() || first_break + 1 >= body.len() {
        return None;
    }
    let start = first_break + 1;
    let stop = find_line_feed(body, start);
    if stop > start && body[stop - 1] == CARRIAGE_RETURN {
        Some((start, stop - 1))
    } else {
        Some((start, stop))
    }
}

} // verus!
