//! Command-line values of the front-ends: numbers written in decimal or in
//! `0x` hexadecimal, controller button lists, and the frame runner's options.

use vstd::prelude::*;
use std::collections::HashMap;

verus! {

/// Unicode `White_Space`, the characters that `str::trim` removes.
pub open spec fn is_space(c: char) -> bool {
    let u = c as u32;
    ||| 0x09 <= u <= 0x0D
    ||| u == 0x20
    ||| u == 0x85
    ||| u == 0xA0
    ||| u == 0x1680
    ||| 0x2000 <= u <= 0x200A
    ||| u == 0x2028
    ||| u == 0x2029
    ||| u == 0x202F
    ||| u == 0x205F
    ||| u == 0x3000
}

/// `s` without its leading white space.
pub open spec fn trim_front(s: Seq<char>) -> Seq<char>
    decreases s.len(),
{
    if s.len() > 0 && is_space(s[0]) {
        trim_front(s.drop_first())
    } else {
        s
    }
}

/// `s` without its trailing white space.
pub open spec fn trim_back(s: Seq<char>) -> Seq<char>
    decreases s.len(),
{
    if s.len() > 0 && is_space(s.last()) {
        trim_back(s.drop_last())
    } else {
        s
    }
}

/// `s` without leading and trailing white space.
pub open spec fn trimmed(s: Seq<char>) -> Seq<char> {
    trim_back(trim_front(s))
}

/// The value of `c` as a digit of base `radix` (at most 36): `0`-`9`, then
/// the letters of either case from 10 on.
pub open spec fn digit_of(c: char) -> int {
    let u = c as u32;
    if 0x30 <= u <= 0x39 {
        u - 0x30
    } else if 0x61 <= u <= 0x7A {
        u - 0x61 + 10
    } else if 0x41 <= u <= 0x5A {
        u - 0x41 + 10
    } else {
        36
    }
}

/// Whether every character of `s` is a digit of base `radix`.
pub open spec fn all_digits(s: Seq<char>, radix: int) -> bool {
    forall|i: int| 0 <= i < s.len() ==> #[trigger] digit_of(s[i]) < radix
}

/// The number the digits of `s` write in base `radix`, most significant
/// first.
pub open spec fn digits_value(s: Seq<char>, radix: int) -> int
    decreases s.len(),
{
    if s.len() == 0 {
        0
    } else {
        digits_value(s.drop_last(), radix) * radix + digit_of(s.last())
    }
}

/// `u32::from_str_radix` on `s`: an optional `+`, then at least one digit of
/// base `radix`, for a value that fits in 32 bits; `None` for anything else.
pub open spec fn radix_value(s: Seq<char>, radix: int) -> Option<u32> {
    let digits = if s.len() > 0 && s[0] == '+' { s.drop_first() } else { s };
    if digits.len() == 0 || !all_digits(digits, radix) || digits_value(digits, radix) > u32::MAX {
        None
    } else {
        Some(digits_value(digits, radix) as u32)
    }
}

/// A number written in decimal, or in hexadecimal after a `0x` prefix, with
/// surrounding white space ignored.
pub open spec fn hex_or_dec_value(s: Seq<char>) -> Option<u32> {
    let t = trimmed(s);
    if t.len() >= 2 && t[0] == '0' && t[1] == 'x' {
        radix_value(t.skip(2), 16)
    } else {
        radix_value(t, 10)
    }
}

proof fn lemma_digits_value_grows(s: Seq<char>, k: int, radix: int)
    requires
        0 <= k <= s.len(),
        2 <= radix,
        all_digits(s, radix),
    ensures
        digits_value(s.take(k), radix) <= digits_value(s, radix),
        0 <= digits_value(s.take(k), radix),
    decreases s.len() - k,
{
    if k < s.len() {
        let t = s.take(k + 1);
        assert(t.drop_last() =~= s.take(k));
        assert(digit_of(t.last()) >= 0);
        lemma_digits_value_grows(s, k + 1, radix);
        let v = digits_value(s.take(k), radix);
        assert(v >= 0) by {
            lemma_digits_value_nonneg(s.take(k), radix);
        }
        assert(v * radix >= v) by (nonlinear_arith)
            requires
                v >= 0,
                radix >= 2,
        ;
    } else {
        assert(s.take(k) =~= s);
        lemma_digits_value_nonneg(s, radix);
    }
}

proof fn lemma_digits_value_nonneg(s: Seq<char>, radix: int)
    requires
        2 <= radix,
    ensures
        0 <= digits_value(s, radix),
    decreases s.len(),
{
    if s.len() > 0 {
        lemma_digits_value_nonneg(s.drop_last(), radix);
        let v = digits_value(s.drop_last(), radix);
        assert(v * radix >= 0) by (nonlinear_arith)
            requires
                v >= 0,
                radix >= 2,
        ;
    }
}

/// Whether `c` is white space in the sense of `char::is_whitespace`.
pub fn is_space_char(c: char) -> (r: bool)
    ensures
        r == is_space(c),
{
    let u = c as u32;
    (0x09 <= u && u <= 0x0D) || u == 0x20 || u == 0x85 || u == 0xA0 || u == 0x1680
        || (0x2000 <= u && u <= 0x200A) || u == 0x2028 || u == 0x2029 || u == 0x202F
        || u == 0x205F || u == 0x3000
}

/// The value of a digit character, 36 for a character that is no digit.
fn digit_value(c: char) -> (d: u32)
    ensures
        d == digit_of(c),
        d <= 36,
{
    let u = c as u32;
    if 0x30 <= u && u <= 0x39 {
        u - 0x30
    } else if 0x61 <= u && u <= 0x7A {
        u - 0x61 + 10
    } else if 0x41 <= u && u <= 0x5A {
        u - 0x41 + 10
    } else {
        36
    }
}

proof fn lemma_trim_front_skip(s: Seq<char>, a: int)
    requires
        0 <= a <= s.len(),
        forall|i: int| 0 <= i < a ==> is_space(#[trigger] s[i]),
        a == s.len() || !is_space(s[a]),
    ensures
        trim_front(s) == s.skip(a),
    decreases a,
{
    if a == 0 {
        assert(s.skip(0) =~= s);
    } else {
        assert(is_space(s[0]));
        let t = s.drop_first();
        assert forall|i: int| 0 <= i < a - 1 implies is_space(#[trigger] t[i]) by {
            assert(t[i] == s[i + 1]);
        }
        if a - 1 < t.len() {
            assert(t[a - 1] == s[a]);
        }
        lemma_trim_front_skip(t, a - 1);
        assert(t.skip(a - 1) =~= s.skip(a));
    }
}

proof fn lemma_trim_back_take(s: Seq<char>, b: int)
    requires
        0 <= b <= s.len(),
        forall|i: int| b <= i < s.len() ==> is_space(#[trigger] s[i]),
        b == 0 || !is_space(s[b - 1]),
    ensures
        trim_back(s) == s.take(b),
    decreases s.len() - b,
{
    if b == s.len() {
        assert(s.take(b) =~= s);
    } else {
        assert(is_space(s.last()));
        let t = s.drop_last();
        assert forall|i: int| b <= i < t.len() implies is_space(#[trigger] t[i]) by {
            assert(t[i] == s[i]);
        }
        if b > 0 {
            assert(t[b - 1] == s[b - 1]);
        }
        lemma_trim_back_take(t, b);
        assert(t.take(b) =~= s.take(b));
    }
}

/// The bounds `(a, b)` of `s` without its surrounding white space, as
/// character positions.
fn trim_bounds(s: &str) -> (r: (usize, usize))
    ensures
        r.0 <= r.1 <= s@.len(),
        trimmed(s@) == s@.subrange(r.0 as int, r.1 as int),
{
    let n = s.unicode_len();
    let mut a: usize = 0;
    while a < n && is_space_char(s.get_char(a))
        invariant
            n == s@.len(),
            a <= n,
            forall|i: int| 0 <= i < a ==> is_space(#[trigger] s@[i]),
        decreases n - a,
    {
        a += 1;
    }
    let mut b: usize = n;
    while b > a && is_space_char(s.get_char(b - 1))
        invariant
            n == s@.len(),
            a <= b <= n,
            forall|i: int| b <= i < n ==> is_space(#[trigger] s@[i]),
        decreases b - a,
    {
        b -= 1;
    }
    proof {
        lemma_trim_front_skip(s@, a as int);
        let f = s@.skip(a as int);
        assert forall|i: int| (b - a) <= i < f.len() implies is_space(#[trigger] f[i]) by {
            assert(f[i] == s@[i + a]);
        }
        if b > a {
            assert(f[b - a - 1] == s@[b - 1]);
        }
        lemma_trim_back_take(f, (b - a) as int);
        assert(f.take((b - a) as int) =~= s@.subrange(a as int, b as int));
    }
    (a, b)
}

/// `u32::from_str_radix` on the characters of `s` from `a` to `b`.
fn parse_radix(s: &str, a: usize, b: usize, radix: u32) -> (r: Option<u32>)
    requires
        a <= b <= s@.len(),
        radix == 10 || radix == 16,
    ensures
        r == radix_value(s@.subrange(a as int, b as int), radix as int),
{
    let ghost t = s@.subrange(a as int, b as int);
    let mut start = a;
    if a < b && s.get_char(a) == '+' {
        start = a + 1;
    }
    let ghost digits = s@.subrange(start as int, b as int);
    proof {
        if a < b {
            assert(t[0] == s@[a as int]);
        }
        if a < b && t[0] == '+' {
            assert(t.drop_first() =~= digits);
        } else {
            assert(t =~= digits);
        }
    }
    if start == b {
        return None;
    }
    let mut value: u64 = 0;
    let mut i = start;
    while i < b
        invariant
            a <= start <= i <= b <= s@.len(),
            radix == 10 || radix == 16,
            digits == s@.subrange(start as int, b as int),
            t == s@.subrange(a as int, b as int),
            digits == (if t.len() > 0 && t[0] == '+' { t.drop_first() } else { t }),
            forall|j: int| start <= j < i ==> #[trigger] digit_of(s@[j]) < radix,
            value == digits_value(s@.subrange(start as int, i as int), radix as int),
            value <= u32::MAX,
        decreases b - i,
    {
        let d = digit_value(s.get_char(i));
        if d >= radix {
            proof {
                assert(digits[i - start] == s@[i as int]);
                assert(!all_digits(digits, radix as int));
            }
            return None;
        }
        proof {
            let p = s@.subrange(start as int, i + 1);
            assert(p.drop_last() =~= s@.subrange(start as int, i as int));
            assert(p.last() == s@[i as int]);
            assert(digits_value(p, radix as int) == value * radix + d);
            assert(value * radix <= 0xFFFF_FFFFu64 * 16) by (nonlinear_arith)
                requires
                    value <= 0xFFFF_FFFFu64,
                    radix <= 16,
            ;
        }
        let next = value * (radix as u64) + (d as u64);
        if next > 0xFFFF_FFFF {
            proof {
                let k = i + 1 - start;
                let p = s@.subrange(start as int, i + 1);
                assert(digits_value(p, radix as int) == next);
                if all_digits(digits, radix as int) {
                    assert(digits.take(k) =~= p);
                    lemma_digits_value_grows(digits, k, radix as int);
                }
            }
            return None;
        }
        value = next;
        i += 1;
    }
    proof {
        assert(s@.subrange(start as int, b as int) =~= digits);
        assert forall|j: int| 0 <= j < digits.len() implies #[trigger] digit_of(digits[j]) < radix by {
            assert(digits[j] == s@[j + start]);
        }
    }
    Some(value as u32)
}

/// Parses a number written in decimal, or in hexadecimal after `0x`,
/// ignoring surrounding white space; `None` when it is not one.
pub fn parse_u32_hex_or_dec(s: &str) -> (r: Option<u32>)
    ensures
        r == hex_or_dec_value(s@),
{
    let (a, b) = trim_bounds(s);
    let ghost t = s@.subrange(a as int, b as int);
    if b - a >= 2 && s.get_char(a) == '0' && s.get_char(a + 1) == 'x' {
        proof {
            assert(t[0] == s@[a as int]);
            assert(t[1] == s@[a + 1]);
            assert(t.skip(2) =~= s@.subrange(a + 2, b as int));
        }
        parse_radix(s, a + 2, b, 16)
    } else {
        proof {
            if t.len() >= 2 {
                assert(t[0] == s@[a as int]);
                assert(t[1] == s@[a + 1]);
            }
        }
        parse_radix(s, a, b, 10)
    }
}


/// The controller bit a button name stands for: A, B, Select, Start, Up,
/// Down, Left, Right are bits 0 to 7; an empty or unknown name sets none.
pub open spec fn button_mask(name: Seq<char>) -> u8 {
    if name == seq!['A'] {
        0x01
    } else if name == seq!['B'] {
        0x02
    } else if name == seq!['S', 'e', 'l', 'e', 'c', 't'] {
        0x04
    } else if name == seq!['S', 't', 'a', 'r', 't'] {
        0x08
    } else if name == seq!['U', 'p'] {
        0x10
    } else if name == seq!['D', 'o', 'w', 'n'] {
        0x20
    } else if name == seq!['L', 'e', 'f', 't'] {
        0x40
    } else if name == seq!['R', 'i', 'g', 'h', 't'] {
        0x80
    } else {
        0x00
    }
}

/// The pieces of `s` between commas, in order (one piece when there is no
/// comma; empty pieces where commas are adjacent or at either end).
pub open spec fn split_commas(s: Seq<char>) -> Seq<Seq<char>>
    decreases s.len(),
{
    if s.len() == 0 {
        seq![Seq::<char>::empty()]
    } else {
        let rest = split_commas(s.drop_last());
        if s.last() == ',' {
            rest.push(Seq::<char>::empty())
        } else {
            rest.update(rest.len() - 1, rest.last().push(s.last()))
        }
    }
}

/// The bits of all the named buttons, each name taken without surrounding
/// white space.
pub open spec fn masks_of(pieces: Seq<Seq<char>>) -> u8
    decreases pieces.len(),
{
    if pieces.len() == 0 {
        0
    } else {
        masks_of(pieces.drop_last()) | button_mask(trimmed(pieces.last()))
    }
}

/// The controller byte a comma-separated list of button names gives.
pub open spec fn buttons_value(s: Seq<char>) -> u8 {
    masks_of(split_commas(s))
}

proof fn lemma_split_commas_nonempty(s: Seq<char>)
    ensures
        split_commas(s).len() >= 1,
    decreases s.len(),
{
    if s.len() > 0 {
        lemma_split_commas_nonempty(s.drop_last());
    }
}

/// Whether the characters of `s` from `a` to `b` are exactly `name`.
fn chars_equal(s: &str, a: usize, b: usize, name: &[char]) -> (r: bool)
    requires
        a <= b <= s@.len(),
    ensures
        r == (s@.subrange(a as int, b as int) == name@),
{
    if b - a != name.len() {
        proof {
            assert(s@.subrange(a as int, b as int).len() != name@.len());
        }
        return false;
    }
    let mut i: usize = 0;
    while i < name.len()
        invariant
            a <= b <= s@.len(),
            b - a == name@.len(),
            i <= name@.len(),
            forall|j: int| 0 <= j < i ==> s@[a + j] == name@[j],
        decreases name@.len() - i,
    {
        if s.get_char(a + i) != name[i] {
            proof {
                assert(s@.subrange(a as int, b as int)[i as int] != name@[i as int]);
            }
            return false;
        }
        i += 1;
    }
    assert(s@.subrange(a as int, b as int) =~= name@);
    true
}

/// The bit of one button name, ignoring surrounding white space.
fn piece_mask(piece: &str) -> (m: u8)
    ensures
        m == button_mask(trimmed(piece@)),
{
    let (a, b) = trim_bounds(piece);
    let name_a: [char; 1] = ['A'];
    let name_b: [char; 1] = ['B'];
    let name_select: [char; 6] = ['S', 'e', 'l', 'e', 'c', 't'];
    let name_start: [char; 5] = ['S', 't', 'a', 'r', 't'];
    let name_up: [char; 2] = ['U', 'p'];
    let name_down: [char; 4] = ['D', 'o', 'w', 'n'];
    let name_left: [char; 4] = ['L', 'e', 'f', 't'];
    let name_right: [char; 5] = ['R', 'i', 'g', 'h', 't'];
    proof {
        assert(name_a@ =~= seq!['A']);
        assert(name_b@ =~= seq!['B']);
        assert(name_select@ =~= seq!['S', 'e', 'l', 'e', 'c', 't']);
        assert(name_start@ =~= seq!['S', 't', 'a', 'r', 't']);
        assert(name_up@ =~= seq!['U', 'p']);
        assert(name_down@ =~= seq!['D', 'o', 'w', 'n']);
        assert(name_left@ =~= seq!['L', 'e', 'f', 't']);
        assert(name_right@ =~= seq!['R', 'i', 'g', 'h', 't']);
    }
    if chars_equal(piece, a, b, &name_a) {
        0x01
    } else if chars_equal(piece, a, b, &name_b) {
        0x02
    } else if chars_equal(piece, a, b, &name_select) {
        0x04
    } else if chars_equal(piece, a, b, &name_start) {
        0x08
    } else if chars_equal(piece, a, b, &name_up) {
        0x10
    } else if chars_equal(piece, a, b, &name_down) {
        0x20
    } else if chars_equal(piece, a, b, &name_left) {
        0x40
    } else if chars_equal(piece, a, b, &name_right) {
        0x80
    } else {
        0x00
    }
}

/// The controller byte for a comma-separated list of button names such as
/// `Start` or `A,Right`; names are taken without surrounding white space and
/// an unknown name sets no bit.
pub fn parse_buttons(s: &str) -> (val: u8)
    ensures
        val == buttons_value(s@),
{
    let n = s.unicode_len();
    let mut val: u8 = 0;
    let mut piece_start: usize = 0;
    let ghost mut done: Seq<Seq<char>> = Seq::empty();
    let mut i: usize = 0;
    proof {
        assert(s@.take(0) =~= Seq::<char>::empty());
        assert(s@.subrange(0, 0) =~= Seq::<char>::empty());
        assert(done.push(s@.subrange(0, 0)) =~= seq![Seq::<char>::empty()]);
    }
    while i < n
        invariant
            n == s@.len(),
            piece_start <= i <= n,
            split_commas(s@.take(i as int)) == done.push(s@.subrange(piece_start as int, i as int)),
            val == masks_of(done),
        decreases n - i,
    {
        proof {
            let t = s@.take(i + 1);
            assert(t.drop_last() =~= s@.take(i as int));
            assert(t.last() == s@[i as int]);
        }
        if s.get_char(i) == ',' {
            let piece = s.substring_char(piece_start, i);
            let m = piece_mask(piece);
            proof {
                let cur = s@.subrange(piece_start as int, i as int);
                assert(done.push(cur).drop_last() =~= done);
                done = done.push(cur);
                assert(s@.subrange((i + 1) as int, (i + 1) as int) =~= Seq::<char>::empty());
            }
            val = val | m;
            piece_start = i + 1;
        } else {
            proof {
                let cur = s@.subrange(piece_start as int, i as int);
                let rest = done.push(cur);
                assert(cur.push(s@[i as int]) =~= s@.subrange(piece_start as int, i + 1));
                assert(rest.update(rest.len() - 1, cur.push(s@[i as int])) =~= done.push(
                    s@.subrange(piece_start as int, i + 1),
                ));
            }
        }
        i += 1;
    }
    let piece = s.substring_char(piece_start, n);
    let m = piece_mask(piece);
    proof {
        assert(s@.take(n as int) =~= s@);
        let all = done.push(s@.subrange(piece_start as int, n as int));
        assert(all.drop_last() =~= done);
    }
    val | m
}

/// The options of the headless frame runner.
pub struct Args {
    pub rom_path: String,
    pub max_frames: u32,
    pub inputs: HashMap<u32, u8>,
    pub captures: Vec<u32>,
    pub capture_dir: String,
    pub all_frames: bool,
}

impl Args {
    /// Whether frame `frame` is to be saved: every frame with `--all-frames`,
    /// else the frames named by `--capture`.
    pub fn should_capture(&self, frame: u32) -> (r: bool)
        ensures
            r == (self.all_frames || self.captures@.contains(frame)),
    {
        if self.all_frames {
            return true;
        }
        let mut i: usize = 0;
        while i < self.captures.len()
            invariant
                i <= self.captures@.len(),
                forall|j: int| 0 <= j < i ==> self.captures@[j] != frame,
            decreases self.captures@.len() - i,
        {
            if self.captures[i] == frame {
                return true;
            }
            i += 1;
        }
        false
    }
}


/// Why the frame runner's options were refused.
#[derive(Debug, Clone, Copy, PartialEq, Eq, Structural)]
pub enum ArgsError {
    /// Fewer than two arguments: there is no ROM path.
    Usage,
    /// An option that takes a value is the last argument; the position the
    /// value was expected at.
    MissingValue(usize),
    /// The value of `--frames` is not a decimal `u32`.
    InvalidFrames,
    /// The value of `--input` has no `:`.
    InvalidInputFormat,
    /// The frame before the `:` of `--input` is not a decimal `u32`.
    InvalidFrameNumber,
    /// The value of `--capture` is not a decimal `u32`.
    InvalidCaptureFrame,
    /// The argument at this position is no known option.
    UnknownOption(usize),
}

/// The parsed options as plain values: frame count, inputs by frame,
/// captured frames, capture directory, whether every frame is captured.
pub type OptionsModel = (u32, Map<u32, u8>, Seq<u32>, Seq<char>, bool);

/// The position of the first `:` in `s`, if any.
pub open spec fn first_colon(s: Seq<char>) -> Option<int> {
    if exists|k: int| 0 <= k < s.len() && s[k] == ':' {
        Some(choose|k: int| 0 <= k < s.len() && s[k] == ':' && forall|j: int| 0 <= j < k ==> s[j] != ':')
    } else {
        None
    }
}

pub open spec fn opt_frames() -> Seq<char> {
    seq!['-', '-', 'f', 'r', 'a', 'm', 'e', 's']
}

pub open spec fn opt_input() -> Seq<char> {
    seq!['-', '-', 'i', 'n', 'p', 'u', 't']
}

pub open spec fn opt_capture() -> Seq<char> {
    seq!['-', '-', 'c', 'a', 'p', 't', 'u', 'r', 'e']
}

pub open spec fn opt_capture_dir() -> Seq<char> {
    seq!['-', '-', 'c', 'a', 'p', 't', 'u', 'r', 'e', '-', 'd', 'i', 'r']
}

pub open spec fn opt_all_frames() -> Seq<char> {
    seq!['-', '-', 'a', 'l', 'l', '-', 'f', 'r', 'a', 'm', 'e', 's']
}

/// The options from position `i` on, applied in order to `st`.
pub open spec fn parse_options(args: Seq<Seq<char>>, i: int, st: OptionsModel) -> Result<OptionsModel, ArgsError>
    decreases args.len() - i,
{
    if i < 0 || i >= args.len() {
        Ok(st)
    } else {
        let a = args[i];
        if a == opt_frames() {
            if i + 1 >= args.len() {
                Err(ArgsError::MissingValue((i + 1) as usize))
            } else {
                match radix_value(args[i + 1], 10) {
                    None => Err(ArgsError::InvalidFrames),
                    Some(v) => parse_options(args, i + 2, (v, st.1, st.2, st.3, st.4)),
                }
            }
        } else if a == opt_input() {
            if i + 1 >= args.len() {
                Err(ArgsError::MissingValue((i + 1) as usize))
            } else {
                let v = args[i + 1];
                match first_colon(v) {
                    None => Err(ArgsError::InvalidInputFormat),
                    Some(k) => match radix_value(v.take(k), 10) {
                        None => Err(ArgsError::InvalidFrameNumber),
                        Some(f) => parse_options(
                            args,
                            i + 2,
                            (st.0, st.1.insert(f, buttons_value(v.skip(k + 1))), st.2, st.3, st.4),
                        ),
                    },
                }
            }
        } else if a == opt_capture() {
            if i + 1 >= args.len() {
                Err(ArgsError::MissingValue((i + 1) as usize))
            } else {
                match radix_value(args[i + 1], 10) {
                    None => Err(ArgsError::InvalidCaptureFrame),
                    Some(f) => parse_options(args, i + 2, (st.0, st.1, st.2.push(f), st.3, st.4)),
                }
            }
        } else if a == opt_capture_dir() {
            if i + 1 >= args.len() {
                Err(ArgsError::MissingValue((i + 1) as usize))
            } else {
                parse_options(args, i + 2, (st.0, st.1, st.2, args[i + 1], st.4))
            }
        } else if a == opt_all_frames() {
            parse_options(args, i + 1, (st.0, st.1, st.2, st.3, true))
        } else {
            Err(ArgsError::UnknownOption(i as usize))
        }
    }
}

/// The options of the frame runner from its command line (the program name
/// first, then the ROM path): 300 frames, no inputs, no captures and `/tmp`
/// unless the options say otherwise.
pub open spec fn headless_options(args: Seq<Seq<char>>) -> Result<OptionsModel, ArgsError> {
    if args.len() < 2 {
        Err(ArgsError::Usage)
    } else {
        parse_options(args, 2, (300, Map::empty(), Seq::empty(), seq!['/', 't', 'm', 'p'], false))
    }
}

/// The text of each argument.
pub open spec fn arg_texts(args: Seq<String>) -> Seq<Seq<char>> {
    args.map_values(|a: String| a@)
}

/// The position of the first `:` in `s`.
fn find_colon(s: &str) -> (r: Option<usize>)
    ensures
        r matches Some(k) ==> first_colon(s@) == Some(k as int) && k < s@.len(),
        r is None ==> first_colon(s@) is None,
{
    let n = s.unicode_len();
    let mut k: usize = 0;
    while k < n
        invariant
            n == s@.len(),
            k <= n,
            forall|j: int| 0 <= j < k ==> s@[j] != ':',
        decreases n - k,
    {
        if s.get_char(k) == ':' {
            proof {
                let w = choose|w: int| 0 <= w < s@.len() && s@[w] == ':' && forall|j: int| 0 <= j < w ==> s@[j] != ':';
                assert(0 <= w < s@.len() && s@[w] == ':' && forall|j: int| 0 <= j < w ==> s@[j] != ':');
                if w < k {
                    assert(s@[w] != ':');
                }
                if w > k {
                    assert(s@[k as int] != ':');
                }
            }
            return Some(k);
        }
        k += 1;
    }
    None
}

/// Whether the argument's text is exactly `name`.
fn arg_is(a: &String, name: &[char]) -> (r: bool)
    ensures
        r == (a@ == name@),
{
    let s = a.as_str();
    let n = s.unicode_len();
    assert(s@.subrange(0, n as int) =~= s@);
    chars_equal(s, 0, n, name)
}

impl Args {
    /// The options as plain values.
    pub open spec fn model(&self) -> OptionsModel {
        (self.max_frames, self.inputs@, self.captures@, self.capture_dir@, self.all_frames)
    }
}



/// The decimal `u32` written by all of `s` (`str::parse`).
fn parse_decimal(s: &str) -> (r: Option<u32>)
    ensures
        r == radix_value(s@, 10),
{
    let n = s.unicode_len();
    assert(s@.subrange(0, n as int) =~= s@);
    parse_radix(s, 0, n, 10)
}

/// The frame runner's options from its command line (program name, ROM
/// path, options): `Usage` without a ROM path; otherwise the options are
/// taken in order and the first bad one is reported.
pub fn parse_headless_args(args: &Vec<String>) -> (r: Result<Args, ArgsError>)
    ensures
        match r {
            Ok(a) => headless_options(arg_texts(args@)) == Ok::<OptionsModel, ArgsError>(a.model())
                && a.rom_path@ == args@[1]@,
            Err(e) => headless_options(arg_texts(args@)) == Err::<OptionsModel, ArgsError>(e),
        },
{
    broadcast use vstd::std_specs::hash::group_hash_axioms;
    broadcast use vstd::string::group_string_axioms;

    let ghost texts = arg_texts(args@);
    if args.len() < 2 {
        return Err(ArgsError::Usage);
    }
    let rom_path = args[1].clone();
    let mut max_frames: u32 = 300;
    let mut inputs: HashMap<u32, u8> = HashMap::new();
    let mut captures: Vec<u32> = Vec::new();
    let mut capture_dir: String = "/tmp".to_string();
    let mut all_frames = false;
    let n_frames: [char; 8] = ['-', '-', 'f', 'r', 'a', 'm', 'e', 's'];
    let n_input: [char; 7] = ['-', '-', 'i', 'n', 'p', 'u', 't'];
    let n_capture: [char; 9] = ['-', '-', 'c', 'a', 'p', 't', 'u', 'r', 'e'];
    let n_capture_dir: [char; 13] = ['-', '-', 'c', 'a', 'p', 't', 'u', 'r', 'e', '-', 'd', 'i', 'r'];
    let n_all_frames: [char; 12] = ['-', '-', 'a', 'l', 'l', '-', 'f', 'r', 'a', 'm', 'e', 's'];
    proof {
        reveal_strlit("/tmp");
        assert(capture_dir@ =~= seq!['/', 't', 'm', 'p']);
        assert(inputs@ =~= Map::<u32, u8>::empty());
        assert(n_frames@ =~= opt_frames());
        assert(n_input@ =~= opt_input());
        assert(n_capture@ =~= opt_capture());
        assert(n_capture_dir@ =~= opt_capture_dir());
        assert(n_all_frames@ =~= opt_all_frames());
    }
    let mut i: usize = 2;
    while i < args.len()
        invariant
            texts == arg_texts(args@),
            2 <= i,
            rom_path@ == args@[1]@,
            n_frames@ == opt_frames(),
            n_input@ == opt_input(),
            n_capture@ == opt_capture(),
            n_capture_dir@ == opt_capture_dir(),
            n_all_frames@ == opt_all_frames(),
            headless_options(texts) == parse_options(
                texts,
                i as int,
                (max_frames, inputs@, captures@, capture_dir@, all_frames),
            ),
        decreases args.len() - i,
    {
        proof {
            assert(texts[i as int] == args@[i as int]@);
            if i + 1 < args@.len() {
                assert(texts[i + 1] == args@[i + 1]@);
            }
        }
        let a = &args[i];
        if arg_is(a, &n_frames) {
            if i + 1 >= args.len() {
                return Err(ArgsError::MissingValue(i + 1));
            }
            match parse_decimal(args[i + 1].as_str()) {
                None => {
                    return Err(ArgsError::InvalidFrames);
                },
                Some(v) => {
                    max_frames = v;
                },
            }
            i += 2;
        } else if arg_is(a, &n_input) {
            if i + 1 >= args.len() {
                return Err(ArgsError::MissingValue(i + 1));
            }
            let v = args[i + 1].as_str();
            let n = v.unicode_len();
            match find_colon(v) {
                None => {
                    return Err(ArgsError::InvalidInputFormat);
                },
                Some(k) => {
                    proof {
                        assert(v@.subrange(0, k as int) =~= v@.take(k as int));
                        assert(v@.subrange(k + 1, n as int) =~= v@.skip(k + 1));
                    }
                    match parse_radix(v, 0, k, 10) {
                        None => {
                            return Err(ArgsError::InvalidFrameNumber);
                        },
                        Some(frame) => {
                            let rest = v.substring_char(k + 1, n);
                            let buttons = parse_buttons(rest);
                            inputs.insert(frame, buttons);
                        },
                    }
                },
            }
            i += 2;
        } else if arg_is(a, &n_capture) {
            if i + 1 >= args.len() {
                return Err(ArgsError::MissingValue(i + 1));
            }
            match parse_decimal(args[i + 1].as_str()) {
                None => {
                    return Err(ArgsError::InvalidCaptureFrame);
                },
                Some(frame) => {
                    captures.push(frame);
                },
            }
            i += 2;
        } else if arg_is(a, &n_capture_dir) {
            if i + 1 >= args.len() {
                return Err(ArgsError::MissingValue(i + 1));
            }
            capture_dir = args[i + 1].clone();
            i += 2;
        } else if arg_is(a, &n_all_frames) {
            all_frames = true;
            i += 1;
        } else {
            return Err(ArgsError::UnknownOption(i));
        }
    }
    Ok(Args { rom_path, max_frames, inputs, captures, capture_dir, all_frames })
}


/// The WRAM dump tool's options as given on its command line; what they
/// leave out is `None`.
pub struct DumpArgs {
    pub rom: Option<String>,
    pub frames: Option<u64>,
    pub start: Option<u32>,
    pub len: Option<u32>,
    pub nonzero_only: bool,
}

/// The dump options as plain values.
pub type DumpModel = (Option<Seq<char>>, Option<u64>, Option<u32>, Option<u32>, bool);

pub open spec fn opt_start() -> Seq<char> {
    seq!['-', '-', 's', 't', 'a', 'r', 't']
}

pub open spec fn opt_len() -> Seq<char> {
    seq!['-', '-', 'l', 'e', 'n']
}

pub open spec fn opt_length() -> Seq<char> {
    seq!['-', '-', 'l', 'e', 'n', 'g', 't', 'h']
}

pub open spec fn opt_nonzero() -> Seq<char> {
    seq!['-', '-', 'n', 'o', 'n', 'z', 'e', 'r', 'o']
}

pub open spec fn opt_nz() -> Seq<char> {
    seq!['-', '-', 'n', 'z']
}

/// The dump options from position `i` on: `--frames`, `--start` and
/// `--len`/`--length` take the next argument as a number (decimal or `0x`
/// hex; an unreadable one clears the option; nothing happens when none
/// follows), `--nonzero`/`--nz` set the flag, and the first other argument
/// is the ROM path.
pub open spec fn dump_options(args: Seq<Seq<char>>, i: int, st: DumpModel) -> DumpModel
    decreases args.len() - i,
{
    if i < 0 || i >= args.len() {
        st
    } else {
        let a = args[i];
        let has_value = i + 1 < args.len();
        if a == opt_frames() {
            if has_value {
                let f = match hex_or_dec_value(args[i + 1]) {
                    Some(n) => Some(n as u64),
                    None => None,
                };
                dump_options(args, i + 2, (st.0, f, st.2, st.3, st.4))
            } else {
                st
            }
        } else if a == opt_start() {
            if has_value {
                dump_options(args, i + 2, (st.0, st.1, hex_or_dec_value(args[i + 1]), st.3, st.4))
            } else {
                st
            }
        } else if a == opt_len() || a == opt_length() {
            if has_value {
                dump_options(args, i + 2, (st.0, st.1, st.2, hex_or_dec_value(args[i + 1]), st.4))
            } else {
                st
            }
        } else if a == opt_nonzero() || a == opt_nz() {
            dump_options(args, i + 1, (st.0, st.1, st.2, st.3, true))
        } else {
            let rom = if st.0 is None { Some(a) } else { st.0 };
            dump_options(args, i + 1, (rom, st.1, st.2, st.3, st.4))
        }
    }
}

impl DumpArgs {
    /// The options as plain values.
    pub open spec fn model(&self) -> DumpModel {
        (
            match self.rom {
                Some(r) => Some(r@),
                None => None,
            },
            self.frames,
            self.start,
            self.len,
            self.nonzero_only,
        )
    }
}

/// The WRAM dump tool's options from its arguments (program name left
/// out).
pub fn parse_dump_args(args: &Vec<String>) -> (d: DumpArgs)
    ensures
        d.model() == dump_options(arg_texts(args@), 0, (None, None, None, None, false)),
{
    let ghost texts = arg_texts(args@);
    let mut rom: Option<String> = None;
    let mut frames: Option<u64> = None;
    let mut start: Option<u32> = None;
    let mut len: Option<u32> = None;
    let mut nonzero_only = false;
    let n_frames: [char; 8] = ['-', '-', 'f', 'r', 'a', 'm', 'e', 's'];
    let n_start: [char; 7] = ['-', '-', 's', 't', 'a', 'r', 't'];
    let n_len: [char; 5] = ['-', '-', 'l', 'e', 'n'];
    let n_length: [char; 8] = ['-', '-', 'l', 'e', 'n', 'g', 't', 'h'];
    let n_nonzero: [char; 9] = ['-', '-', 'n', 'o', 'n', 'z', 'e', 'r', 'o'];
    let n_nz: [char; 4] = ['-', '-', 'n', 'z'];
    proof {
        assert(n_frames@ =~= opt_frames());
        assert(n_start@ =~= opt_start());
        assert(n_len@ =~= opt_len());
        assert(n_length@ =~= opt_length());
        assert(n_nonzero@ =~= opt_nonzero());
        assert(n_nz@ =~= opt_nz());
    }
    let mut i: usize = 0;
    while i < args.len()
        invariant
            texts == arg_texts(args@),
            n_frames@ == opt_frames(),
            n_start@ == opt_start(),
            n_len@ == opt_len(),
            n_length@ == opt_length(),
            n_nonzero@ == opt_nonzero(),
            n_nz@ == opt_nz(),
            dump_options(texts, 0, (None, None, None, None, false)) == dump_options(
                texts,
                i as int,
                (DumpArgs { rom, frames, start, len, nonzero_only }).model(),
            ),
        ensures
            dump_options(texts, 0, (None, None, None, None, false)) == (DumpArgs {
                rom,
                frames,
                start,
                len,
                nonzero_only,
            }).model(),
        decreases args.len() - i,
    {
        proof {
            assert(texts[i as int] == args@[i as int]@);
            if i + 1 < args@.len() {
                assert(texts[i + 1] == args@[i + 1]@);
            }
        }
        let a = &args[i];
        if arg_is(a, &n_frames) {
            if i + 1 >= args.len() {
                break;
            }
            frames = match parse_u32_hex_or_dec(args[i + 1].as_str()) {
                Some(n) => Some(n as u64),
                None => None,
            };
            i += 2;
        } else if arg_is(a, &n_start) {
            if i + 1 >= args.len() {
                break;
            }
            start = parse_u32_hex_or_dec(args[i + 1].as_str());
            i += 2;
        } else if arg_is(a, &n_len) || arg_is(a, &n_length) {
            if i + 1 >= args.len() {
                break;
            }
            len = parse_u32_hex_or_dec(args[i + 1].as_str());
            i += 2;
        } else if arg_is(a, &n_nonzero) || arg_is(a, &n_nz) {
            nonzero_only = true;
            i += 1;
        } else {
            if rom.is_none() {
                rom = Some(a.clone());
            }
            i += 1;
        }
    }
    DumpArgs { rom, frames, start, len, nonzero_only }
}


/// Whether `w[a..b]` holds a non-zero byte.
pub open spec fn has_nonzero(w: Seq<u8>, a: int, b: int) -> bool {
    exists|k: int| a <= k < b && w[k] != 0
}

/// The 16-byte lines of a dump from `addr` to `end`, as position ranges; a
/// line of zeros is left out when only non-zero lines are wanted.
pub open spec fn dump_ranges(w: Seq<u8>, addr: int, end: int, nonzero_only: bool) -> Seq<(usize, usize)>
    decreases end - addr,
{
    if addr >= end {
        Seq::empty()
    } else {
        let line_end = if end - addr > 16 { addr + 16 } else { end };
        let rest = dump_ranges(w, line_end, end, nonzero_only);
        if !nonzero_only || has_nonzero(w, addr, line_end) {
            seq![(addr as usize, line_end as usize)] + rest
        } else {
            rest
        }
    }
}

/// The lines of a WRAM dump of `len` bytes from `start`, cut at the end of
/// WRAM; `None` when `start` is outside WRAM.
pub fn wram_dump_lines(wram: &[u8], start: u32, len: u32, nonzero_only: bool) -> (r: Option<Vec<(usize, usize)>>)
    requires
        start + len <= u32::MAX,
    ensures
        start >= wram@.len() <==> r is None,
        r matches Some(lines) ==> lines@ == dump_ranges(
            wram@,
            start as int,
            if start + len < wram@.len() { start + len } else { wram@.len() as int },
            nonzero_only,
        ),
{
    let n = wram.len();
    if start as usize >= n {
        return None;
    }
    let sum = (start + len) as usize;
    let end = if sum < n { sum } else { n };
    let mut lines: Vec<(usize, usize)> = Vec::new();
    let mut addr = start as usize;
    while addr < end
        invariant
            n == wram@.len(),
            start <= addr,
            end <= n,
            addr <= end || addr == start,
            lines@ + dump_ranges(wram@, addr as int, end as int, nonzero_only) == dump_ranges(
                wram@,
                start as int,
                end as int,
                nonzero_only,
            ),
        decreases end - addr,
    {
        let line_end = if end - addr > 16 { addr + 16 } else { end };
        let mut has_nz = false;
        let mut k = addr;
        while k < line_end
            invariant
                addr <= k <= line_end <= end <= n,
                n == wram@.len(),
                has_nz == has_nonzero(wram@, addr as int, k as int),
            decreases line_end - k,
        {
            if wram[k] != 0 {
                has_nz = true;
            }
            proof {
                if !has_nz {
                    assert(!has_nonzero(wram@, addr as int, k + 1)) by {
                        if has_nonzero(wram@, addr as int, k + 1) {
                            let j = choose|j: int| addr <= j < k + 1 && wram@[j] != 0;
                            if j < k {
                                assert(has_nonzero(wram@, addr as int, k as int));
                            }
                        }
                    }
                } else {
                    if wram@[k as int] != 0 {
                        assert(addr <= k < k + 1 && wram@[k as int] != 0);
                    } else {
                        let j = choose|j: int| addr <= j < k && wram@[j] != 0;
                        assert(addr <= j < k + 1 && wram@[j] != 0);
                    }
                }
            }
            k += 1;
        }
        let ghost before = lines@;
        if !nonzero_only || has_nz {
            lines.push((addr, line_end));
            proof {
                assert(before.push((addr, line_end)) + dump_ranges(wram@, line_end as int, end as int, nonzero_only)
                    =~= before + (seq![(addr, line_end)] + dump_ranges(wram@, line_end as int, end as int, nonzero_only)));
            }
        }
        addr = line_end;
    }
    proof {
        assert(lines@ + Seq::<(usize, usize)>::empty() =~= lines@);
    }
    Some(lines)
}

} // verus!
