use vstd::prelude::*;
use crate::color::Color;
use crate::engine::Command;
use crate::shared::Mode;

verus! {

/// A one-byte whitespace character: tab, line feed, vertical tab, form
/// feed, carriage return or space.
pub open spec fn is_space1(a: u8) -> bool {
    a == 32 || (9 <= a && a <= 13)
}

/// A two-byte UTF-8 whitespace character: U+0085 or U+00A0.
pub open spec fn is_space2(a: u8, b: u8) -> bool {
    a == 0xC2 && (b == 0x85 || b == 0xA0)
}

/// A three-byte UTF-8 whitespace character: U+1680, U+2000 to U+200A,
/// U+2028, U+2029, U+202F, U+205F or U+3000.
pub open spec fn is_space3(a: u8, b: u8, c: u8) -> bool {
    (a == 0xE1 && b == 0x9A && c == 0x80) || (a == 0xE2 && b == 0x80 && ((0x80 <= c && c
        <= 0x8A) || c == 0xA8 || c == 0xA9 || c == 0xAF)) || (a == 0xE2 && b == 0x81 && c
        == 0x9F) || (a == 0xE3 && b == 0x80 && c == 0x80)
}

/// Byte length of the whitespace character that starts `s`, or 0.
pub open spec fn lead_space_len(s: Seq<u8>) -> int {
    if s.len() >= 1 && is_space1(s[0]) {
        1
    } else if s.len() >= 2 && is_space2(s[0], s[1]) {
        2
    } else if s.len() >= 3 && is_space3(s[0], s[1], s[2]) {
        3
    } else {
        0
    }
}

/// Byte length of the whitespace character that ends `s`, or 0.
pub open spec fn trail_space_len(s: Seq<u8>) -> int {
    let n = s.len() as int;
    if n >= 1 && is_space1(s[n - 1]) {
        1
    } else if n >= 2 && is_space2(s[n - 2], s[n - 1]) {
        2
    } else if n >= 3 && is_space3(s[n - 3], s[n - 2], s[n - 1]) {
        3
    } else {
        0
    }
}

pub open spec fn trim_start(s: Seq<u8>) -> Seq<u8>
    decreases s.len(),
{
    let k = lead_space_len(s);
    if k > 0 {
        trim_start(s.subrange(k, s.len() as int))
    } else {
        s
    }
}

pub open spec fn trim_end(s: Seq<u8>) -> Seq<u8>
    decreases s.len(),
{
    let k = trail_space_len(s);
    if k > 0 {
        trim_end(s.subrange(0, s.len() - k))
    } else {
        s
    }
}

/// UTF-8 text `s` without leading and trailing whitespace (the characters
/// of Unicode's White_Space property).
pub open spec fn trimmed(s: Seq<u8>) -> Seq<u8> {
    trim_end(trim_start(s))
}

/// Value of an ASCII hex digit.
pub open spec fn hex_digit(b: u8) -> Option<int> {
    if 48 <= b <= 57 {
        Some(b - 48)
    } else if 65 <= b <= 70 {
        Some(b - 55)
    } else if 97 <= b <= 102 {
        Some(b - 87)
    } else {
        None
    }
}

/// Value of two hex digits, if both are hex digits.
pub open spec fn hex_pair(hi: u8, lo: u8) -> Option<int> {
    match (hex_digit(hi), hex_digit(lo)) {
        (Some(h), Some(l)) => Some(16 * h + l),
        _ => None,
    }
}

/// A line typed by the user, recognised.
#[derive(Clone, Debug, PartialEq, Eq)]
pub enum Input {
    /// One of the named static colors.
    Named(Color),
    /// `music`: follow the audio.
    Music,
    /// `#RRGGBB`, as sRGB channels.
    Hex(u8, u8, u8),
    /// `op<number>`: the number's text, trimmed.
    Opacity(Vec<u8>),
    /// `sc<number>`: the number's text, trimmed.
    Scale(Vec<u8>),
    /// Anything else.
    Ignored,
}

// The ASCII bytes of the command words `white`, `off`, `red`, `green`,
// `blue`, `pink`, `yellow` and `music`.
pub open spec fn word_white() -> Seq<u8> { seq![119u8, 104u8, 105u8, 116u8, 101u8] }
pub open spec fn word_off() -> Seq<u8> { seq![111u8, 102u8, 102u8] }
pub open spec fn word_red() -> Seq<u8> { seq![114u8, 101u8, 100u8] }
pub open spec fn word_green() -> Seq<u8> { seq![103u8, 114u8, 101u8, 101u8, 110u8] }
pub open spec fn word_blue() -> Seq<u8> { seq![98u8, 108u8, 117u8, 101u8] }
pub open spec fn word_pink() -> Seq<u8> { seq![112u8, 105u8, 110u8, 107u8] }
pub open spec fn word_yellow() -> Seq<u8> { seq![121u8, 101u8, 108u8, 108u8, 111u8, 119u8] }
pub open spec fn word_music() -> Seq<u8> { seq![109u8, 117u8, 115u8, 105u8, 99u8] }

/// The named static colors, `(lightness, chroma, hue)` in millionths.
pub open spec fn named_color(w: Seq<u8>) -> Option<(int, int, int)> {
    if w == word_white() {
        Some((1_000_000int, 0int, 0int))
    } else if w == word_off() {
        Some((0int, 0int, 0int))
    } else if w == word_red() {
        Some((628_000int, 257_683int, 29_233_885int))
    } else if w == word_green() {
        Some((866_400int, 294_755int, 142_495_339int))
    } else if w == word_blue() {
        Some((452_000int, 313_136int, 264_053_008int))
    } else if w == word_pink() {
        Some((612_200int, 241_500int, 22_940_000int))
    } else if w == word_yellow() {
        Some((968_000int, 210_954int, 109_769_232int))
    } else {
        None
    }
}

/// What a line means: after trimming, a named color, `music`, `#` with six
/// hex digits, or `op` / `sc` followed by an argument; anything else,
/// malformed hex included, is ignored.
pub open spec fn recognised(line: Seq<u8>, r: Input) -> bool {
    let t = trimmed(line);
    if named_color(t) is Some {
        r matches Input::Named(c) && c.lch() == named_color(t)->0
    } else if t == word_music() {
        r == Input::Music
    } else if t.len() > 0 && t[0] == 35 {
        if t.len() == 7 && hex_pair(t[1], t[2]) is Some && hex_pair(t[3], t[4]) is Some
            && hex_pair(t[5], t[6]) is Some {
            r == Input::Hex(
                hex_pair(t[1], t[2])->0 as u8,
                hex_pair(t[3], t[4])->0 as u8,
                hex_pair(t[5], t[6])->0 as u8,
            )
        } else {
            r == Input::Ignored
        }
    } else if t.len() >= 2 && t[0] == 111 && t[1] == 112 {
        r matches Input::Opacity(a) && a@ == trimmed(t.subrange(2, t.len() as int))
    } else if t.len() >= 2 && t[0] == 115 && t[1] == 99 {
        r matches Input::Scale(a) && a@ == trimmed(t.subrange(2, t.len() as int))
    } else {
        r == Input::Ignored
    }
}

/// Bounds `(start, end)` of the trimmed part of `s[from..to]`.
fn trim_bounds(s: &[u8], from: usize, to: usize) -> (r: (usize, usize))
    requires
        from <= to <= s@.len(),
    ensures
        from <= r.0 <= r.1 <= to,
        s@.subrange(r.0 as int, r.1 as int) == trimmed(s@.subrange(from as int, to as int)),
{
    let mut i: usize = from;
    let mut k: usize = space_len_at(s, i, to);
    while k > 0
        invariant
            from <= i <= to <= s@.len(),
            k as int == lead_space_len(s@.subrange(i as int, to as int)),
            trim_start(s@.subrange(from as int, to as int)) == trim_start(
                s@.subrange(i as int, to as int),
            ),
        decreases to - i,
    {
        assert(s@.subrange(i as int, to as int).subrange(k as int, (to - i) as int) =~= s@.subrange(
            i + k,
            to as int,
        ));
        i = i + k;
        k = space_len_at(s, i, to);
    }
    let t = Ghost(s@.subrange(i as int, to as int));
    assert(trim_start(t@) == t@);
    let mut j: usize = to;
    let mut e: usize = space_len_before(s, i, j);
    while e > 0
        invariant
            i <= j <= to <= s@.len(),
            e as int == trail_space_len(s@.subrange(i as int, j as int)),
            t@ == s@.subrange(i as int, to as int),
            trim_end(t@) == trim_end(s@.subrange(i as int, j as int)),
        decreases j,
    {
        assert(s@.subrange(i as int, j as int).subrange(0, (j - i - e) as int) =~= s@.subrange(
            i as int,
            j - e,
        ));
        j = j - e;
        e = space_len_before(s, i, j);
    }
    (i, j)
}

fn space3(a: u8, b: u8, c: u8) -> (r: bool)
    ensures
        r == is_space3(a, b, c),
{
    (a == 0xE1 && b == 0x9A && c == 0x80) || (a == 0xE2 && b == 0x80 && ((0x80 <= c && c <= 0x8A)
        || c == 0xA8 || c == 0xA9 || c == 0xAF)) || (a == 0xE2 && b == 0x81 && c == 0x9F) || (a
        == 0xE3 && b == 0x80 && c == 0x80)
}

/// Byte length of the whitespace character that starts `s[i..to]`, or 0.
fn space_len_at(s: &[u8], i: usize, to: usize) -> (r: usize)
    requires
        i <= to <= s@.len(),
    ensures
        r as int == lead_space_len(s@.subrange(i as int, to as int)),
        r <= to - i,
{
    let n = to - i;
    if n >= 1 && (s[i] == 32 || (9 <= s[i] && s[i] <= 13)) {
        1
    } else if n >= 2 && s[i] == 0xC2 && (s[i + 1] == 0x85 || s[i + 1] == 0xA0) {
        2
    } else if n >= 3 && space3(s[i], s[i + 1], s[i + 2]) {
        3
    } else {
        0
    }
}

/// Byte length of the whitespace character that ends `s[from..j]`, or 0.
fn space_len_before(s: &[u8], from: usize, j: usize) -> (r: usize)
    requires
        from <= j <= s@.len(),
    ensures
        r as int == trail_space_len(s@.subrange(from as int, j as int)),
        r <= j - from,
{
    let n = j - from;
    if n >= 1 && (s[j - 1] == 32 || (9 <= s[j - 1] && s[j - 1] <= 13)) {
        1
    } else if n >= 2 && s[j - 2] == 0xC2 && (s[j - 1] == 0x85 || s[j - 1] == 0xA0) {
        2
    } else if n >= 3 && space3(s[j - 3], s[j - 2], s[j - 1]) {
        3
    } else {
        0
    }
}

/// Whether `s[start..end]` equals `w`.
fn bytes_eq(s: &[u8], start: usize, end: usize, w: &[u8]) -> (r: bool)
    requires
        start <= end <= s@.len(),
    ensures
        r == (s@.subrange(start as int, end as int) == w@),
{
    if end - start != w.len() {
        return false;
    }
    let mut k: usize = 0;
    while k < w.len()
        invariant
            end - start == w@.len(),
            start <= end <= s@.len(),
            k <= w@.len(),
            forall|m: int| 0 <= m < k ==> s@[start + m] == w@[m],
        decreases w@.len() - k,
    {
        if s[start + k] != w[k] {
            assert(s@.subrange(start as int, end as int)[k as int] != w@[k as int]);
            return false;
        }
        k = k + 1;
    }
    assert(s@.subrange(start as int, end as int) =~= w@);
    true
}

fn hex_digit_of(b: u8) -> (r: Option<u8>)
    ensures
        match hex_digit(b) {
            Some(v) => r == Some(v as u8),
            None => r is None,
        },
{
    if 48 <= b && b <= 57 {
        Some(b - 48)
    } else if 65 <= b && b <= 70 {
        Some(b - 55)
    } else if 97 <= b && b <= 102 {
        Some(b - 87)
    } else {
        None
    }
}

fn hex_pair_of(hi: u8, lo: u8) -> (r: Option<u8>)
    ensures
        match hex_pair(hi, lo) {
            Some(v) => r == Some(v as u8),
            None => r is None,
        },
{
    match (hex_digit_of(hi), hex_digit_of(lo)) {
        (Some(h), Some(l)) => Some(16 * h + l),
        _ => None,
    }
}

fn copy_range(s: &[u8], start: usize, end: usize) -> (r: Vec<u8>)
    requires
        start <= end <= s@.len(),
    ensures
        r@ == s@.subrange(start as int, end as int),
{
    let mut out: Vec<u8> = Vec::new();
    let mut k: usize = start;
    while k < end
        invariant
            start <= k <= end <= s@.len(),
            out@ == s@.subrange(start as int, k as int),
        decreases end - k,
    {
        out.push(s[k]);
        assert(out@ =~= s@.subrange(start as int, k + 1));
        k = k + 1;
    }
    out
}

/// Recognises one line of user input.
pub fn parse_input(line: &[u8]) -> (r: Input)
    ensures
        recognised(line@, r),
{
    let (a, b) = trim_bounds(line, 0, line.len());
    assert(line@.subrange(0, line@.len() as int) =~= line@);
    let t = Ghost(line@.subrange(a as int, b as int));
    let white: [u8; 5] = [119, 104, 105, 116, 101];
    let off: [u8; 3] = [111, 102, 102];
    let red: [u8; 3] = [114, 101, 100];
    let green: [u8; 5] = [103, 114, 101, 101, 110];
    let blue: [u8; 4] = [98, 108, 117, 101];
    let pink: [u8; 4] = [112, 105, 110, 107];
    let yellow: [u8; 6] = [121, 101, 108, 108, 111, 119];
    let music: [u8; 5] = [109, 117, 115, 105, 99];
    assert(white@ =~= word_white() && off@ =~= word_off() && red@ =~= word_red());
    assert(green@ =~= word_green() && blue@ =~= word_blue() && pink@ =~= word_pink());
    assert(yellow@ =~= word_yellow() && music@ =~= word_music());
    if bytes_eq(line, a, b, white.as_slice()) {
        Input::Named(Color::new(1_000_000, 0, 0))
    } else if bytes_eq(line, a, b, off.as_slice()) {
        Input::Named(Color::new(0, 0, 0))
    } else if bytes_eq(line, a, b, red.as_slice()) {
        Input::Named(Color::new(628_000, 257_683, 29_233_885))
    } else if bytes_eq(line, a, b, green.as_slice()) {
        Input::Named(Color::new(866_400, 294_755, 142_495_339))
    } else if bytes_eq(line, a, b, blue.as_slice()) {
        Input::Named(Color::new(452_000, 313_136, 264_053_008))
    } else if bytes_eq(line, a, b, pink.as_slice()) {
        Input::Named(Color::new(612_200, 241_500, 22_940_000))
    } else if bytes_eq(line, a, b, yellow.as_slice()) {
        Input::Named(Color::new(968_000, 210_954, 109_769_232))
    } else if bytes_eq(line, a, b, music.as_slice()) {
        Input::Music
    } else if b > a && line[a] == 35 {
        if b - a == 7 {
            match (
                hex_pair_of(line[a + 1], line[a + 2]),
                hex_pair_of(line[a + 3], line[a + 4]),
                hex_pair_of(line[a + 5], line[a + 6]),
            ) {
                (Some(r), Some(g), Some(bl)) => Input::Hex(r, g, bl),
                _ => Input::Ignored,
            }
        } else {
            Input::Ignored
        }
    } else if b - a >= 2 && line[a] == 111 && line[a + 1] == 112 {
        let (c, d) = trim_bounds(line, a + 2, b);
        assert(t@.subrange(2, t@.len() as int) =~= line@.subrange(a + 2, b as int));
        Input::Opacity(copy_range(line, c, d))
    } else if b - a >= 2 && line[a] == 115 && line[a + 1] == 99 {
        let (c, d) = trim_bounds(line, a + 2, b);
        assert(t@.subrange(2, t@.len() as int) =~= line@.subrange(a + 2, b as int));
        Input::Scale(copy_range(line, c, d))
    } else {
        Input::Ignored
    }
}

/// The commands for recognised input that needs no number conversion: a
/// named color sets it as a static color, `music` switches to reactive mode,
/// ignored input gives none. `None` for hex colors and for opacity and scale
/// arguments, whose conversion is left to the caller.
pub fn plain_commands(input: &Input) -> (r: Option<Vec<Command>>)
    ensures
        match *input {
            Input::Named(c) => r matches Some(v) && v@ == seq![
                Command::SetMode(Mode::Static),
                Command::SetColor(c),
            ],
            Input::Music => r matches Some(v) && v@ == seq![Command::SetMode(Mode::Reactive)],
            Input::Ignored => r matches Some(v) && v@.len() == 0,
            _ => r is None,
        },
{
    match input {
        Input::Named(c) => Some(static_color(*c)),
        Input::Music => {
            let v = vec![Command::SetMode(Mode::Reactive)];
            assert(v@ =~= seq![Command::SetMode(Mode::Reactive)]);
            Some(v)
        },
        Input::Ignored => Some(Vec::new()),
        _ => None,
    }
}

/// The commands that set a static color: leave reactive mode, then commit.
pub fn static_color(color: Color) -> (r: Vec<Command>)
    ensures
        r@ == seq![Command::SetMode(Mode::Static), Command::SetColor(color)],
{
    let r = vec![Command::SetMode(Mode::Static), Command::SetColor(color)];
    assert(r@ =~= seq![Command::SetMode(Mode::Static), Command::SetColor(color)]);
    r
}

} // verus!
