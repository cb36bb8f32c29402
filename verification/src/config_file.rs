//! The configuration file: plain text, one `key = value` setting per line.
//!
//! The keys are `window_inner_width` and `window_inner_height`, whose
//! values are decimal numbers no larger than `u32::MAX`, and
//! `window_starts_maximized`, whose value is `true` or `false`. Spaces,
//! tabs and carriage returns around a key, its `=` and its value do not
//! count. A line that is no such setting (a blank line, a comment, an
//! unknown key, a bad value) is skipped. A later line overrides an earlier
//! one, and a size of zero stands for the default size, as it does for
//! [`AppConfigBuilder`]. What no line states keeps its default.

use vstd::prelude::*;
use vstd::string::*;
use crate::config::{width_setting, height_setting, AppConfigBuilder, AppConfigBuilderModel};

verus! {

/// The byte that ends a line.
pub const NEWLINE: u8 = 10;

/// The byte between a key and its value: `=`.
pub const EQUALS: u8 = 61;

/// A space.
pub const SPACE: u8 = 32;

/// A tab.
pub const TAB: u8 = 9;

/// A carriage return, which ends lines in some files.
pub const CARRIAGE_RETURN: u8 = 13;

/// The digit `0`.
pub const DIGIT_ZERO: u8 = 48;

/// The digit `9`.
pub const DIGIT_NINE: u8 = 57;

/// One setting a line of the file can state.
#[derive(Clone, Copy, Debug, PartialEq, Eq, Structural)]
pub enum Setting {
    WindowInnerWidth(u32),
    WindowInnerHeight(u32),
    WindowStartsMaximized(bool),
}

/// Whether the byte is a space, a tab or a carriage return.
pub open spec fn is_blank(c: u8) -> bool {
    c == SPACE || c == TAB || c == CARRIAGE_RETURN
}

/// The bytes without their leading blanks.
pub open spec fn trim_start(s: Seq<u8>) -> Seq<u8>
    decreases s.len(),
{
    if s.len() > 0 && is_blank(s[0]) {
        trim_start(s.drop_first())
    } else {
        s
    }
}

/// The bytes without their trailing blanks.
pub open spec fn trim_end(s: Seq<u8>) -> Seq<u8>
    decreases s.len(),
{
    if s.len() > 0 && is_blank(s.last()) {
        trim_end(s.drop_last())
    } else {
        s
    }
}

/// The bytes without their leading and trailing blanks.
pub open spec fn trim(s: Seq<u8>) -> Seq<u8> {
    trim_end(trim_start(s))
}

/// The value a trimmed line gives the key: the line is the key, then
/// blanks, then `=`, then the value (trimmed).
pub open spec fn value_after_key(line: Seq<u8>, key: Seq<u8>) -> Option<Seq<u8>> {
    if key.len() <= line.len() && line.take(key.len() as int) == key {
        let rest = trim_start(line.skip(key.len() as int));
        if rest.len() > 0 && rest[0] == EQUALS {
            Some(trim(rest.drop_first()))
        } else {
            None
        }
    } else {
        None
    }
}

/// Whether the byte is a decimal digit.
pub open spec fn is_digit(c: u8) -> bool {
    DIGIT_ZERO <= c <= DIGIT_NINE
}

/// The number that the digits spell.
pub open spec fn decimal_value(s: Seq<u8>) -> int
    decreases s.len(),
{
    if s.len() == 0 {
        0
    } else {
        10 * decimal_value(s.drop_last()) + (s.last() - DIGIT_ZERO)
    }
}

/// The `u32` that the bytes spell in decimal, if they are one or more
/// digits whose number fits.
pub open spec fn decimal(s: Seq<u8>) -> Option<u32> {
    if s.len() > 0 && (forall|i: int| 0 <= i < s.len() ==> is_digit(#[trigger] s[i]))
        && decimal_value(s) <= u32::MAX {
        Some(decimal_value(s) as u32)
    } else {
        None
    }
}

/// The flag that the bytes spell: `true` or `false`.
pub open spec fn flag(s: Seq<u8>) -> Option<bool> {
    if s == "true".spec_bytes() {
        Some(true)
    } else if s == "false".spec_bytes() {
        Some(false)
    } else {
        None
    }
}

/// The setting a line states, if it states one.
pub open spec fn line_setting(line: Seq<u8>) -> Option<Setting> {
    let l = trim(line);
    match value_after_key(l, "window_inner_width".spec_bytes()) {
        Some(v) => match decimal(v) {
            Some(n) => Some(Setting::WindowInnerWidth(n)),
            None => None,
        },
        None => match value_after_key(l, "window_inner_height".spec_bytes()) {
            Some(v) => match decimal(v) {
                Some(n) => Some(Setting::WindowInnerHeight(n)),
                None => None,
            },
            None => match value_after_key(l, "window_starts_maximized".spec_bytes()) {
                Some(v) => match flag(v) {
                    Some(m) => Some(Setting::WindowStartsMaximized(m)),
                    None => None,
                },
                None => None,
            },
        },
    }
}

/// The lines of the file, in order, without their newlines. A file ending
/// in a newline has an empty last line; an empty file has one empty line.
pub open spec fn lines(s: Seq<u8>) -> Seq<Seq<u8>>
    decreases s.len(),
{
    if s.len() == 0 {
        seq![Seq::<u8>::empty()]
    } else {
        let ls = lines(s.drop_last());
        if s.last() == NEWLINE {
            ls.push(Seq::<u8>::empty())
        } else {
            ls.update(ls.len() - 1, ls.last().push(s.last()))
        }
    }
}

/// The builder settings after a line's setting, if it has one.
pub open spec fn apply_setting(b: AppConfigBuilderModel, o: Option<Setting>) -> AppConfigBuilderModel {
    match o {
        Some(Setting::WindowInnerWidth(w)) => b.set_width(w),
        Some(Setting::WindowInnerHeight(h)) => b.set_height(h),
        Some(Setting::WindowStartsMaximized(m)) => b.set_maximized(m),
        None => b,
    }
}

/// The builder settings after the lines, applied in order.
pub open spec fn apply_lines(b: AppConfigBuilderModel, ls: Seq<Seq<u8>>) -> AppConfigBuilderModel
    decreases ls.len(),
{
    if ls.len() == 0 {
        b
    } else {
        apply_setting(apply_lines(b, ls.drop_last()), line_setting(ls.last()))
    }
}

/// The builder settings a file gives: its lines applied to a fresh builder.
pub open spec fn file_settings(contents: Seq<u8>) -> AppConfigBuilderModel {
    apply_lines(AppConfigBuilderModel::fresh(), lines(contents))
}

/// The width the last width line among the lines states, if any does.
pub open spec fn last_width(ls: Seq<Seq<u8>>) -> Option<u32>
    decreases ls.len(),
{
    if ls.len() == 0 {
        None
    } else {
        match line_setting(ls.last()) {
            Some(Setting::WindowInnerWidth(w)) => Some(w),
            _ => last_width(ls.drop_last()),
        }
    }
}

/// The height the last height line among the lines states, if any does.
pub open spec fn last_height(ls: Seq<Seq<u8>>) -> Option<u32>
    decreases ls.len(),
{
    if ls.len() == 0 {
        None
    } else {
        match line_setting(ls.last()) {
            Some(Setting::WindowInnerHeight(h)) => Some(h),
            _ => last_height(ls.drop_last()),
        }
    }
}

/// The flag the last maximized line among the lines states, if any does.
pub open spec fn last_maximized(ls: Seq<Seq<u8>>) -> Option<bool>
    decreases ls.len(),
{
    if ls.len() == 0 {
        None
    } else {
        match line_setting(ls.last()) {
            Some(Setting::WindowStartsMaximized(m)) => Some(m),
            _ => last_maximized(ls.drop_last()),
        }
    }
}

/// The width the file states: that of its last width line, if any.
pub open spec fn stated_width(contents: Seq<u8>) -> Option<u32> {
    last_width(lines(contents))
}

/// The height the file states: that of its last height line, if any.
pub open spec fn stated_height(contents: Seq<u8>) -> Option<u32> {
    last_height(lines(contents))
}

/// Whether the window starts maximized, as the file states it: by its last
/// maximized line, if any.
pub open spec fn stated_maximized(contents: Seq<u8>) -> Option<bool> {
    last_maximized(lines(contents))
}

/// Applying lines changes each field exactly as the last line stating it
/// says, and leaves alone the fields no line states.
proof fn lemma_apply_lines_fields(b: AppConfigBuilderModel, ls: Seq<Seq<u8>>)
    ensures
        apply_lines(b, ls).window_inner_width == match last_width(ls) {
            Some(w) => Some(width_setting(w)),
            None => b.window_inner_width,
        },
        apply_lines(b, ls).window_inner_height == match last_height(ls) {
            Some(h) => Some(height_setting(h)),
            None => b.window_inner_height,
        },
        apply_lines(b, ls).window_starts_maximized == match last_maximized(ls) {
            Some(m) => m,
            None => b.window_starts_maximized,
        },
    decreases ls.len(),
{
    if ls.len() > 0 {
        lemma_apply_lines_fields(b, ls.drop_last());
    }
}

/// A configuration file sets each value to what its last line stating that
/// value says (a zero size meaning the default size), and every value that
/// no line states to its default.
pub proof fn lemma_file_values(contents: Seq<u8>)
    ensures
        file_settings(contents).build().window_inner_width == match stated_width(contents) {
            Some(w) => width_setting(w),
            None => AppConfigBuilder::DEFAULT_WINDOW_INNER_WIDTH,
        },
        file_settings(contents).build().window_inner_height == match stated_height(contents) {
            Some(h) => height_setting(h),
            None => AppConfigBuilder::DEFAULT_WINDOW_INNER_HEIGHT,
        },
        file_settings(contents).build().window_starts_maximized == match stated_maximized(
            contents,
        ) {
            Some(m) => m,
            None => AppConfigBuilder::DEFAULT_WINDOW_STARTS_MAXIMIZED,
        },
{
    lemma_apply_lines_fields(AppConfigBuilderModel::fresh(), lines(contents));
}

/// A number spelled by digits grows as digits are added, and is never
/// negative.
proof fn lemma_decimal_grows(s: Seq<u8>, k: int)
    requires
        0 <= k <= s.len(),
        forall|i: int| 0 <= i < s.len() ==> is_digit(#[trigger] s[i]),
    ensures
        0 <= decimal_value(s.take(k)) <= decimal_value(s),
    decreases s.len(),
{
    if k == s.len() {
        assert(s.take(k) =~= s);
        if s.len() > 0 {
            lemma_decimal_grows(s.drop_last(), 0);
        }
    } else {
        let t = s.drop_last();
        assert(t.take(k) =~= s.take(k));
        assert forall|i: int| 0 <= i < t.len() implies is_digit(#[trigger] t[i]) by {
            assert(t[i] == s[i]);
        }
        lemma_decimal_grows(t, k);
        assert(is_digit(s[s.len() - 1]));
    }
}

fn is_blank_byte(c: u8) -> (r: bool)
    ensures
        r == is_blank(c),
{
    c == SPACE || c == TAB || c == CARRIAGE_RETURN
}

/// Whether there is a blank at `k`, before `j`.
fn blank_at(s: &[u8], k: usize, j: usize) -> (r: bool)
    requires
        j <= s@.len(),
    ensures
        r == (k < j && is_blank(s@[k as int])),
{
    if k < j {
        is_blank_byte(s[k])
    } else {
        false
    }
}

/// Where `s[i..j]` starts once its leading blanks are skipped.
fn skip_blanks_front(s: &[u8], i: usize, j: usize) -> (k: usize)
    requires
        i <= j <= s@.len(),
    ensures
        i <= k <= j,
        s@.subrange(k as int, j as int) == trim_start(s@.subrange(i as int, j as int)),
{
    let mut k: usize = i;
    while blank_at(s, k, j)
        invariant
            i <= k <= j,
            j <= s@.len(),
            trim_start(s@.subrange(k as int, j as int)) == trim_start(
                s@.subrange(i as int, j as int),
            ),
        decreases j - k,
    {
        assert(s@.subrange(k as int, j as int).drop_first() =~= s@.subrange(k + 1, j as int));
        k = k + 1;
    }
    k
}

/// Where `s[i..j]` ends once its trailing blanks are dropped.
fn skip_blanks_back(s: &[u8], i: usize, j: usize) -> (k: usize)
    requires
        i <= j <= s@.len(),
    ensures
        i <= k <= j,
        s@.subrange(i as int, k as int) == trim_end(s@.subrange(i as int, j as int)),
{
    let mut k: usize = j;
    while k > i && blank_at(s, k - 1, j)
        invariant
            i <= k <= j,
            j <= s@.len(),
            trim_end(s@.subrange(i as int, k as int)) == trim_end(s@.subrange(i as int, j as int)),
        decreases k - i,
    {
        assert(s@.subrange(i as int, k as int).drop_last() =~= s@.subrange(i as int, k - 1));
        k = k - 1;
    }
    k
}

/// Whether `s[a..b]` is the bytes `t`.
fn same_bytes(s: &[u8], a: usize, b: usize, t: &[u8]) -> (r: bool)
    requires
        a <= b <= s@.len(),
    ensures
        r == (s@.subrange(a as int, b as int) == t@),
{
    if b - a != t.len() {
        return false;
    }
    let mut k: usize = 0;
    while k < t.len()
        invariant
            a <= b <= s@.len(),
            b - a == t@.len(),
            k <= t@.len(),
            forall|m: int| 0 <= m < k ==> s@[a + m] == t@[m],
        decreases t@.len() - k,
    {
        if s[a + k] != t[k] {
            assert(s@.subrange(a as int, b as int)[k as int] != t@[k as int]);
            return false;
        }
        k = k + 1;
    }
    assert(s@.subrange(a as int, b as int) =~= t@);
    true
}

/// Where the value of `key` lies when the line `s[a..b]` (already trimmed)
/// gives one.
fn find_value(s: &[u8], a: usize, b: usize, key: &[u8]) -> (r: Option<(usize, usize)>)
    requires
        a <= b <= s@.len(),
    ensures
        match r {
            Some((c, d)) => a <= c <= d <= b && value_after_key(
                s@.subrange(a as int, b as int),
                key@,
            ) == Some(s@.subrange(c as int, d as int)),
            None => value_after_key(s@.subrange(a as int, b as int), key@) is None,
        },
{
    let line = Ghost(s@.subrange(a as int, b as int));
    let n: usize = key.len();
    if n > b - a {
        return None;
    }
    proof {
        assert(line@.take(n as int) =~= s@.subrange(a as int, a + n));
        assert(line@.skip(n as int) =~= s@.subrange(a + n, b as int));
    }
    if !same_bytes(s, a, a + n, key) {
        return None;
    }
    let r: usize = skip_blanks_front(s, a + n, b);
    if r < b && s[r] == EQUALS {
        let c: usize = skip_blanks_front(s, r + 1, b);
        let d: usize = skip_blanks_back(s, c, b);
        proof {
            assert(s@.subrange(r as int, b as int).drop_first() =~= s@.subrange(r + 1, b as int));
        }
        Some((c, d))
    } else {
        None
    }
}

/// The `u32` that `s[a..b]` spells in decimal, if it spells one.
fn parse_decimal(s: &[u8], a: usize, b: usize) -> (r: Option<u32>)
    requires
        a <= b <= s@.len(),
    ensures
        r == decimal(s@.subrange(a as int, b as int)),
{
    let digits = Ghost(s@.subrange(a as int, b as int));
    if a == b {
        return None;
    }
    let mut v: u64 = 0;
    let mut k: usize = a;
    while k < b
        invariant
            a <= k <= b <= s@.len(),
            digits@ == s@.subrange(a as int, b as int),
            v == decimal_value(s@.subrange(a as int, k as int)),
            v <= u32::MAX,
            forall|i: int| a <= i < k ==> is_digit(#[trigger] s@[i]),
        decreases b - k,
    {
        let c: u8 = s[k];
        if c < DIGIT_ZERO || c > DIGIT_NINE {
            assert(!is_digit(digits@[k - a]));
            return None;
        }
        assert(s@.subrange(a as int, k + 1).drop_last() =~= s@.subrange(a as int, k as int));
        v = v * 10 + (c - DIGIT_ZERO) as u64;
        if v > 0xffff_ffff {
            proof {
                if forall|i: int| 0 <= i < digits@.len() ==> is_digit(#[trigger] digits@[i]) {
                    assert(digits@.take(k + 1 - a) =~= s@.subrange(a as int, k + 1));
                    lemma_decimal_grows(digits@, k + 1 - a);
                }
            }
            return None;
        }
        k = k + 1;
    }
    assert forall|i: int| 0 <= i < digits@.len() implies is_digit(#[trigger] digits@[i]) by {
        assert(digits@[i] == s@[a + i]);
    }
    Some(v as u32)
}

/// The flag that `s[a..b]` spells, if it spells one.
fn parse_flag(s: &[u8], a: usize, b: usize) -> (r: Option<bool>)
    requires
        a <= b <= s@.len(),
    ensures
        r == flag(s@.subrange(a as int, b as int)),
{
    if same_bytes(s, a, b, "true".as_bytes()) {
        Some(true)
    } else if same_bytes(s, a, b, "false".as_bytes()) {
        Some(false)
    } else {
        None
    }
}

/// The setting the line `s[a..b]` states, if it states one.
pub fn parse_line(s: &[u8], a: usize, b: usize) -> (r: Option<Setting>)
    requires
        a <= b <= s@.len(),
    ensures
        r == line_setting(s@.subrange(a as int, b as int)),
{
    let c: usize = skip_blanks_front(s, a, b);
    let d: usize = skip_blanks_back(s, c, b);
    match find_value(s, c, d, "window_inner_width".as_bytes()) {
        Some((e, f)) => match parse_decimal(s, e, f) {
            Some(n) => Some(Setting::WindowInnerWidth(n)),
            None => None,
        },
        None => match find_value(s, c, d, "window_inner_height".as_bytes()) {
            Some((e, f)) => match parse_decimal(s, e, f) {
                Some(n) => Some(Setting::WindowInnerHeight(n)),
                None => None,
            },
            None => match find_value(s, c, d, "window_starts_maximized".as_bytes()) {
                Some((e, f)) => match parse_flag(s, e, f) {
                    Some(m) => Some(Setting::WindowStartsMaximized(m)),
                    None => None,
                },
                None => None,
            },
        },
    }
}

/// The builder after a line's setting, if it has one.
fn apply_line_setting(b: AppConfigBuilder, o: Option<Setting>) -> (r: AppConfigBuilder)
    ensures
        r@ == apply_setting(b@, o),
{
    match o {
        Some(Setting::WindowInnerWidth(w)) => b.with_window_inner_width(w),
        Some(Setting::WindowInnerHeight(h)) => b.with_window_inner_height(h),
        Some(Setting::WindowStartsMaximized(m)) => b.with_window_starts_maximized(m),
        None => b,
    }
}

/// A builder with the settings the lines of the file state, applied in
/// order to a fresh builder.
pub fn parse_config(contents: &[u8]) -> (r: AppConfigBuilder)
    ensures
        r@ == file_settings(contents@),
{
    let mut b = AppConfigBuilder::new();
    let mut start: usize = 0;
    let mut i: usize = 0;
    while i < contents.len()
        invariant
            start <= i <= contents@.len(),
            lines(contents@.take(i as int)).len() >= 1,
            lines(contents@.take(i as int)).last() == contents@.subrange(start as int, i as int),
            apply_lines(AppConfigBuilderModel::fresh(), lines(contents@.take(i as int)).drop_last())
                == b@,
        decreases contents@.len() - i,
    {
        let ghost before = lines(contents@.take(i as int));
        proof {
            assert(contents@.take(i + 1).drop_last() =~= contents@.take(i as int));
            assert(contents@.take(i + 1).last() == contents@[i as int]);
        }
        if contents[i] == NEWLINE {
            let setting = parse_line(contents, start, i);
            b = apply_line_setting(b, setting);
            proof {
                assert(lines(contents@.take(i + 1)).drop_last() =~= before);
                assert(contents@.subrange(i + 1, i + 1) =~= Seq::<u8>::empty());
            }
            start = i + 1;
        } else {
            proof {
                assert(lines(contents@.take(i + 1)).drop_last() =~= before.drop_last());
                assert(contents@.subrange(start as int, i + 1) =~= contents@.subrange(
                    start as int,
                    i as int,
                ).push(contents@[i as int]));
            }
        }
        i = i + 1;
    }
    let setting = parse_line(contents, start, contents.len());
    proof {
        assert(contents@.take(contents@.len() as int) =~= contents@);
    }
    apply_line_setting(b, setting)
}

} // verus!
