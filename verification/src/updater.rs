//! Update checking: version comparison, the daily rate limit and the
//! persisted update state.

use vstd::prelude::*;
use vstd::string::*;
use crate::text::{
    all_digits, chars_of, decimal_digits, decimal_text, decimal_value, digit_range, is_digit,
    lemma_parse_decimal_digits, lemma_trimmed_digits, parse_decimal, parse_number,
    parse_unsigned, rank_digits, trim, trimmed, Rank,
};

verus! {

/// Length of the first `.`-separated field of `s`: the index of the first
/// `.`, or the length of `s` if it holds none.
pub open spec fn field_end(s: Seq<char>) -> int
    decreases s.len(),
{
    if s.len() == 0 || s[0] == '.' {
        0
    } else {
        1 + field_end(s.skip(1))
    }
}

/// The numeric components of a version text: the numbers in its
/// `.`-separated fields, in order and whatever their size. A field that is
/// no unsigned decimal number is left out.
pub open spec fn numeric_fields(s: Seq<char>) -> Seq<nat>
    decreases s.len(),
{
    let end = field_end(s);
    let head = match parse_number(s.take(end)) {
        Some(n) => seq![n],
        None => seq![],
    };
    if 0 <= end < s.len() {
        head + numeric_fields(s.skip(end + 1))
    } else {
        head
    }
}

/// The component at position `i`, zero where the version has none.
pub open spec fn component(parts: Seq<nat>, i: int) -> nat {
    if 0 <= i < parts.len() {
        parts[i]
    } else {
        0
    }
}

/// Major, minor and patch number of a version text.
pub open spec fn version_triple(s: Seq<char>) -> (nat, nat, nat) {
    let parts = numeric_fields(s);
    (component(parts, 0), component(parts, 1), component(parts, 2))
}

/// Lexicographic "greater than" on triples.
pub open spec fn triple_greater(a: (nat, nat, nat), b: (nat, nat, nat)) -> bool {
    a.0 > b.0 || (a.0 == b.0 && (a.1 > b.1 || (a.1 == b.1 && a.2 > b.2)))
}

/// True if version `latest` is strictly newer than version `current`.
pub open spec fn is_newer(latest: Seq<char>, current: Seq<char>) -> bool {
    triple_greater(version_triple(latest), version_triple(current))
}

/// True if each of `ranges` is a range of digits of `chars`.
spec fn digit_ranges(chars: Seq<char>, ranges: Seq<(usize, usize)>) -> bool {
    forall|i: int|
        0 <= i < ranges.len() ==> {
            &&& (#[trigger] ranges[i]).0 <= ranges[i].1 <= chars.len()
            &&& all_digits(chars.subrange(ranges[i].0 as int, ranges[i].1 as int))
        }
}

/// The numbers that the digits in `ranges` denote.
spec fn range_values(chars: Seq<char>, ranges: Seq<(usize, usize)>) -> Seq<nat> {
    ranges.map_values(|r: (usize, usize)| decimal_value(chars.subrange(r.0 as int, r.1 as int)))
}

/// The first field of `s` ends at `k` if no `.` stands before `k` and `k`
/// is a `.` or the end of `s`.
proof fn lemma_field_end(s: Seq<char>, k: int)
    requires
        0 <= k <= s.len(),
        forall|i: int| 0 <= i < k ==> s[i] != '.',
        k == s.len() || s[k] == '.',
    ensures
        field_end(s) == k,
    decreases k,
{
    if k > 0 {
        lemma_field_end(s.skip(1), k - 1);
    }
}

/// Collects the numeric components of `chars[from..]`, each as the range
/// of its digits.
fn numeric_fields_from(chars: &Vec<char>, from: usize) -> (parts: Vec<(usize, usize)>)
    requires
        from <= chars.len(),
    ensures
        digit_ranges(chars@, parts@),
        range_values(chars@, parts@) == numeric_fields(chars@.skip(from as int)),
{
    let mut parts: Vec<(usize, usize)> = Vec::new();
    let mut start: usize = from;
    let mut done = false;
    while !done
        invariant
            from <= start <= chars.len(),
            digit_ranges(chars@, parts@),
            done ==> numeric_fields(chars@.skip(from as int)) == range_values(chars@, parts@),
            !done ==> numeric_fields(chars@.skip(from as int)) == range_values(chars@, parts@)
                + numeric_fields(chars@.skip(start as int)),
        decreases chars.len() - start + if done { 0int } else { 1int },
    {
        let ghost rest = chars@.skip(start as int);
        let ghost before = range_values(chars@, parts@);
        let mut end: usize = start;
        while end < chars.len() && chars[end] != '.'
            invariant
                start <= end <= chars.len(),
                forall|i: int| start <= i < end ==> chars@[i] != '.',
            decreases chars.len() - end,
        {
            end = end + 1;
        }
        proof {
            lemma_field_end(rest, end - start);
            assert(rest.take(end - start) =~= chars@.subrange(start as int, end as int));
        }
        if let Some(digits) = digit_range(chars, start, end) {
            parts.push(digits);
            assert(range_values(chars@, parts@) =~= before + seq![
                decimal_value(chars@.subrange(digits.0 as int, digits.1 as int)),
            ]);
        }
        if end < chars.len() {
            assert(rest.skip(end - start + 1) =~= chars@.skip(end + 1));
            start = end + 1;
        } else {
            done = true;
        }
    }
    parts
}

/// The digits of the numeric component at position `i`; no digits, which
/// denote zero, where there is none.
fn component_at(chars: &Vec<char>, parts: &Vec<(usize, usize)>, i: usize) -> (digits: (
    usize,
    usize,
))
    requires
        digit_ranges(chars@, parts@),
    ensures
        digits.0 <= digits.1 <= chars.len(),
        all_digits(chars@.subrange(digits.0 as int, digits.1 as int)),
        decimal_value(chars@.subrange(digits.0 as int, digits.1 as int)) == component(
            range_values(chars@, parts@),
            i as int,
        ),
{
    if i < parts.len() {
        parts[i]
    } else {
        assert(chars@.subrange(0, 0) =~= Seq::<char>::empty());
        (0, 0)
    }
}

/// Compares the version in `latest[from..]` with the version in `current`.
fn is_newer_chars(latest: &Vec<char>, from: usize, current: &Vec<char>) -> (newer: bool)
    requires
        from <= latest.len(),
    ensures
        newer == is_newer(latest@.skip(from as int), current@),
{
    let latest_parts = numeric_fields_from(latest, from);
    let current_parts = numeric_fields_from(current, 0);
    assert(current@.skip(0) =~= current@);
    let ghost l = numeric_fields(latest@.skip(from as int));
    let ghost c = numeric_fields(current@);
    let mut i: usize = 0;
    while i < 3
        invariant
            0 <= i <= 3,
            l == numeric_fields(latest@.skip(from as int)),
            c == numeric_fields(current@),
            digit_ranges(latest@, latest_parts@),
            digit_ranges(current@, current_parts@),
            range_values(latest@, latest_parts@) == l,
            range_values(current@, current_parts@) == c,
            forall|j: int| 0 <= j < i ==> component(l, j) == component(c, j),
        decreases 3 - i,
    {
        let a = component_at(latest, &latest_parts, i);
        let b = component_at(current, &current_parts, i);
        match rank_digits(latest, a.0, a.1, current, b.0, b.1) {
            Rank::Above => {
                return true;
            },
            Rank::Below => {
                return false;
            },
            Rank::Same => {},
        }
        i = i + 1;
    }
    false
}

/// Compares two version texts by their first three numeric components,
/// major first. A missing component counts as zero; equal versions are not
/// newer.
pub fn is_newer_version(latest: &str, current: &str) -> (newer: bool)
    ensures
        newer == is_newer(latest@, current@),
{
    let latest_chars = chars_of(latest);
    let current_chars = chars_of(current);
    assert(latest_chars@.skip(0) =~= latest@);
    is_newer_chars(&latest_chars, 0, &current_chars)
}

/// A text that starts with a number in digits and a `.` has the number as
/// its first component, whatever the size of the number.
proof fn lemma_numeric_fields_cons(x: Seq<char>, rest: Seq<char>)
    requires
        x.len() > 0,
        all_digits(x),
    ensures
        numeric_fields(x + seq!['.'] + rest) == seq![decimal_value(x)] + numeric_fields(rest),
{
    let s = x + seq!['.'] + rest;
    assert forall|i: int| 0 <= i < x.len() implies s[i] != '.' by {
        assert(is_digit(x[i]));
    }
    lemma_field_end(s, x.len() as int);
    assert(s.take(x.len() as int) =~= x);
    assert(s.skip(x.len() as int + 1) =~= rest);
    assert(is_digit(x[0]));
}

/// A text that is a number in digits has the number as its one component.
proof fn lemma_numeric_fields_one(x: Seq<char>)
    requires
        x.len() > 0,
        all_digits(x),
    ensures
        numeric_fields(x) == seq![decimal_value(x)],
{
    assert forall|i: int| 0 <= i < x.len() implies x[i] != '.' by {
        assert(is_digit(x[i]));
    }
    lemma_field_end(x, x.len() as int);
    assert(x.take(x.len() as int) =~= x);
    assert(is_digit(x[0]));
}

/// A version written as one, two or three numbers in digits with `.`
/// between them has these numbers as its major, minor and patch number,
/// whatever their size; a number that is not written counts as zero.
pub proof fn lemma_version_of_numbers(x: Seq<char>, y: Seq<char>, z: Seq<char>)
    requires
        x.len() > 0 && all_digits(x),
        y.len() > 0 && all_digits(y),
        z.len() > 0 && all_digits(z),
    ensures
        version_triple(x) == (decimal_value(x), 0nat, 0nat),
        version_triple(x + seq!['.'] + y) == (decimal_value(x), decimal_value(y), 0nat),
        version_triple(x + seq!['.'] + y + seq!['.'] + z) == (
            decimal_value(x),
            decimal_value(y),
            decimal_value(z),
        ),
{
    lemma_numeric_fields_one(x);
    lemma_numeric_fields_one(y);
    lemma_numeric_fields_one(z);
    lemma_numeric_fields_cons(x, y);
    lemma_numeric_fields_cons(y, z);
    lemma_numeric_fields_cons(x, y + seq!['.'] + z);
    assert(x + seq!['.'] + (y + seq!['.'] + z) =~= x + seq!['.'] + y + seq!['.'] + z);
}

/// No version is newer than itself.
pub proof fn lemma_is_newer_irreflexive(a: Seq<char>)
    ensures
        !is_newer(a, a),
{
}

/// Of two versions at most one is newer than the other.
pub proof fn lemma_is_newer_asymmetric(a: Seq<char>, b: Seq<char>)
    ensures
        is_newer(a, b) ==> !is_newer(b, a),
{
}

/// A version newer than one that is newer than a third is newer than the
/// third.
pub proof fn lemma_is_newer_transitive(a: Seq<char>, b: Seq<char>, c: Seq<char>)
    requires
        is_newer(a, b),
        is_newer(b, c),
    ensures
        is_newer(a, c),
{
}

/// Any two versions are comparable: one is newer than the other exactly
/// when their major, minor and patch numbers differ, and which one is
/// decided by the first number that differs.
pub proof fn lemma_is_newer_total(a: Seq<char>, b: Seq<char>)
    ensures
        is_newer(a, b) || is_newer(b, a) || version_triple(a) == version_triple(b),
        version_triple(a) == version_triple(b) ==> !is_newer(a, b) && !is_newer(b, a),
        is_newer(a, b) <==> {
            let x = version_triple(a);
            let y = version_triple(b);
            x.0 > y.0 || (x.0 == y.0 && x.1 > y.1) || (x.0 == y.0 && x.1 == y.1 && x.2 > y.2)
        },
{
}

/// Seconds that pass between two rate-limited update checks.
pub const CHECK_INTERVAL_SECS: u64 = 86400;

/// Name of the directory, below the user's configuration directory, that
/// keeps the state of the update checks.
pub const CONFIG_SUBDIR: &'static str = "network-monitor";

/// Name of the file that keeps the time of the last check, in seconds
/// since the epoch as a decimal number.
pub const LAST_CHECK_FILE: &'static str = "last-check";

/// Name of the file that keeps the version of a pending update.
pub const UPDATE_AVAILABLE_FILE: &'static str = "update-available";

/// A version tag without the `v`s at its start.
pub open spec fn without_v(tag: Seq<char>) -> Seq<char>
    decreases tag.len(),
{
    if tag.len() > 0 && tag[0] == 'v' {
        without_v(tag.skip(1))
    } else {
        tag
    }
}

/// True if the release tagged `tag` is newer than version `current`.
pub open spec fn is_update(tag: Seq<char>, current: Seq<char>) -> bool {
    is_newer(without_v(tag), current)
}

/// The number of `v`s at the start of `chars`.
fn leading_v(chars: &Vec<char>) -> (k: usize)
    ensures
        k <= chars.len(),
        chars@.skip(k as int) == without_v(chars@),
{
    let mut k: usize = 0;
    assert(chars@.skip(0) =~= chars@);
    while k < chars.len() && chars[k] == 'v'
        invariant
            0 <= k <= chars.len(),
            without_v(chars@) == without_v(chars@.skip(k as int)),
        decreases chars.len() - k,
    {
        assert(chars@.skip(k as int).skip(1) =~= chars@.skip(k + 1));
        k = k + 1;
    }
    k
}

/// True if the release tagged `tag_name` is newer than version `current`.
/// The tag may start with `v`.
pub fn is_newer_release(tag_name: &str, current: &str) -> (newer: bool)
    ensures
        newer == is_update(tag_name@, current@),
{
    let tag_chars = chars_of(tag_name);
    let current_chars = chars_of(current);
    let from = leading_v(&tag_chars);
    is_newer_chars(&tag_chars, from, &current_chars)
}

/// A release with the number of the current version is no update.
pub proof fn lemma_same_version_is_no_update(tag: Seq<char>, current: Seq<char>)
    requires
        without_v(tag) == current,
    ensures
        !is_update(tag, current),
{
}

/// What one check of the latest release finds: the tag of the release if
/// it is newer than version `current`, and nothing if it is not or if no
/// tag could be had.
pub fn update_from_release(tag_name: Option<String>, current: &str) -> (update: Option<String>)
    ensures
        update == match tag_name {
            Some(tag) => if is_update(tag@, current@) {
                Some(tag)
            } else {
                None
            },
            None => None,
        },
{
    match tag_name {
        Some(tag) => {
            if is_newer_release(tag.as_str(), current) {
                Some(tag)
            } else {
                None
            }
        },
        None => None,
    }
}

/// What is known of the last update check.
#[derive(Debug, Clone)]
pub enum LastCheck {
    /// No time was kept, or it cannot be read, or there is no place to
    /// keep one.
    Missing,
    /// The text that was kept.
    Recorded(String),
}

/// True if a check is due at time `now` when the last one was at `last`:
/// if there was none, or if a full interval has passed since.
pub open spec fn check_due(last: Option<nat>, now: u64) -> bool {
    match last {
        Some(then) => now - then >= CHECK_INTERVAL_SECS,
        None => true,
    }
}

/// The time that a kept text records: its number of seconds, if the text
/// is a decimal number of 64 bits between white space.
pub open spec fn recorded_time(content: Seq<char>) -> Option<nat> {
    parse_unsigned(trimmed(content), u64::MAX as nat)
}

/// True if an update check is due at time `now`.
pub open spec fn should_check_spec(last_check: LastCheck, now: u64) -> bool {
    match last_check {
        LastCheck::Missing => true,
        LastCheck::Recorded(content) => check_due(recorded_time(content@), now),
    }
}

/// Reads a time in seconds from a text that holds a decimal number and
/// nothing else.
pub fn parse_timestamp(text: &str) -> (time: Option<u64>)
    ensures
        match time {
            Some(t) => parse_unsigned(text@, u64::MAX as nat) == Some(t as nat),
            None => parse_unsigned(text@, u64::MAX as nat) is None,
        },
{
    let chars = chars_of(text);
    assert(chars@.subrange(0, chars@.len() as int) =~= text@);
    parse_decimal(&chars, 0, chars.len(), u64::MAX)
}

/// True if a check is due at time `now` when the last one was at `last`.
pub fn is_check_due(last: Option<u64>, now: u64) -> (due: bool)
    ensures
        due == check_due(
            match last {
                Some(then) => Some(then as nat),
                None => None,
            },
            now,
        ),
{
    match last {
        Some(then) => now >= then && now - then >= CHECK_INTERVAL_SECS,
        None => true,
    }
}

/// Decides whether the rate-limited update check runs at time `now`:
/// always if no time was kept or the text kept is no number, which counts
/// as never checked; else if a full interval has passed since.
pub fn should_check(last_check: &LastCheck, now: u64) -> (due: bool)
    ensures
        due == should_check_spec(*last_check, now),
{
    match last_check {
        LastCheck::Missing => true,
        LastCheck::Recorded(content) => {
            let time = parse_timestamp(trim(content.as_str()));
            is_check_due(time, now)
        },
    }
}

/// The text to keep as the time of a check made at time `now`.
pub fn last_check_text(now: u64) -> (text: String)
    ensures
        text@ == decimal_digits(now as nat),
{
    decimal_text(now)
}

/// Decides whether the rate-limited update check runs at time `now`, as
/// [`should_check`] does. If it runs, the text to keep as its time is
/// returned: the time is kept before the check, whatever the check finds.
pub fn rate_limited_check(last_check: &LastCheck, now: u64) -> (keep: Option<String>)
    ensures
        keep is Some == should_check_spec(*last_check, now),
        keep matches Some(text) ==> text@ == decimal_digits(now as nat),
{
    if should_check(last_check, now) {
        Some(last_check_text(now))
    } else {
        None
    }
}

/// The text kept for a check reads back as the time of the check: after a
/// check at time `then`, the next one is due exactly when a full interval
/// has passed.
pub proof fn lemma_last_check_text_reads_back(then: u64, now: u64)
    ensures
        recorded_time(decimal_digits(then as nat)) == Some(then as nat),
        check_due(recorded_time(decimal_digits(then as nat)), now) == (now - then
            >= CHECK_INTERVAL_SECS),
{
    lemma_parse_decimal_digits(then as nat, u64::MAX as nat);
    lemma_trimmed_digits(then as nat);
}

/// What loading the kept update finds.
#[derive(Debug, Clone)]
pub struct PendingUpdate {
    /// The version to offer, if the kept one is newer than the current.
    pub version: Option<String>,
    /// True if a version was kept that is not newer than the current one:
    /// what was kept is to be removed.
    pub stale: bool,
}

/// Model of what loading finds: the version to offer, and whether what was
/// kept is stale. `stored` is the kept text, if any.
pub open spec fn pending_update_spec(stored: Option<Seq<char>>, current: Seq<char>) -> (
    Option<Seq<char>>,
    bool,
) {
    match stored {
        Some(text) => if is_update(trimmed(text), current) {
            (Some(trimmed(text)), false)
        } else {
            (None, true)
        },
        None => (None, false),
    }
}

/// What is kept after a load: nothing if the load found it stale, else
/// what was kept before.
pub open spec fn stored_after_load(stored: Option<Seq<char>>, current: Seq<char>) -> Option<
    Seq<char>,
> {
    if pending_update_spec(stored, current).1 {
        None
    } else {
        stored
    }
}

impl PendingUpdate {
    /// The version to offer, as a sequence of characters.
    pub open spec fn version_view(&self) -> Option<Seq<char>> {
        match self.version {
            Some(version) => Some(version@),
            None => None,
        }
    }
}

/// Judges a version that was read back, already without the white space
/// around it: it is offered if it is newer than `current`, and stale if
/// not.
pub fn pending_from_version(version: &str, current: &str) -> (pending: PendingUpdate)
    ensures
        pending.version_view() == if is_update(version@, current@) {
            Some(version@)
        } else {
            None
        },
        pending.stale == !is_update(version@, current@),
{
    if is_newer_release(version, current) {
        PendingUpdate { version: Some(version.to_owned()), stale: false }
    } else {
        PendingUpdate { version: None, stale: true }
    }
}

/// Loads the kept update. `stored` is the text that was kept, `None` if
/// nothing was kept or it cannot be read. The version in it, without the
/// white space around it, is offered if it is newer than `current`; if it
/// is not, nothing is offered and what was kept is stale.
pub fn pending_update(stored: Option<&str>, current: &str) -> (pending: PendingUpdate)
    ensures
        (pending.version_view(), pending.stale) == pending_update_spec(
            match stored {
                Some(text) => Some(text@),
                None => None,
            },
            current@,
        ),
{
    match stored {
        Some(text) => pending_from_version(trim(text), current),
        None => PendingUpdate { version: None, stale: false },
    }
}

/// Loading a kept version that is not newer than the current one offers
/// nothing and has it removed; loading again then offers nothing and finds
/// nothing to remove.
pub proof fn lemma_stale_update_is_dropped(stored: Seq<char>, current: Seq<char>)
    ensures
        !is_update(trimmed(stored), current) ==> {
            &&& pending_update_spec(Some(stored), current) == (None::<Seq<char>>, true)
            &&& stored_after_load(Some(stored), current) is None
            &&& pending_update_spec(stored_after_load(Some(stored), current), current) == (
                None::<Seq<char>>,
                false,
            )
        },
{
}

} // verus!
