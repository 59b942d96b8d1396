//! The data model: bounded text, timestamps, durations, identifiers,
//! session records and their builder, categories with colors, statistics
//! rows, and the timer configuration.

use vstd::prelude::*;
use vstd::string::StrSliceExecFns;
use vstd::string::StringSliceAdditionalSpecFns;
use vstd::utf8::*;

use crate::clock::epoch_seconds_now;
use crate::text::{
    all_whitespace, boundary_floor, char_utf8_len, dec_digits, is_whitespace_char,
    lemma_boundary_floor_at, lemma_encode_utf8_snoc, push_dec_digits, u64_to_string,
};

verus! {

/// A string whose UTF-8 encoding never exceeds `MAX` bytes. Writes that
/// would exceed the limit are silently ignored.
#[derive(Debug, Clone)]
pub struct BoundedString<const MAX: usize> {
    inner: String,
}

impl<const MAX: usize> View for BoundedString<MAX> {
    type V = Seq<char>;

    closed spec fn view(&self) -> Seq<char> {
        self.inner@
    }
}

impl<const MAX: usize> BoundedString<MAX> {
    /// The length bound always holds of the UTF-8 encoding of the content.
    pub open spec fn wf(self) -> bool {
        encode_utf8(self@).len() <= MAX
    }

    /// Create from a string slice, truncating to fit within `MAX` bytes.
    /// Truncation respects UTF-8 character boundaries, so the result is
    /// always a character prefix of the input.
    pub fn from_string(s: &str) -> (r: Self)
        requires
            encode_utf8(s@).len() <= usize::MAX,
        ensures
            r.wf(),
            encode_utf8(s@).len() <= MAX ==> r@ == s@,
            encode_utf8(s@).len() > MAX ==> encode_utf8(r@) == encode_utf8(s@).subrange(
                0,
                boundary_floor(encode_utf8(s@), MAX as int),
            ),
            r@ == s@.subrange(0, r@.len() as int),
    {
        broadcast use encode_utf8_valid_utf8;

        if s.len() <= MAX {
            let r = BoundedString { inner: s.to_owned() };
            proof {
                assert(s@.subrange(0, s@.len() as int) =~= s@);
            }
            r
        } else {
            let ghost bytes = s.spec_bytes();
            let mut end: usize = MAX;
            while end > 0 && !s.is_char_boundary(end)
                invariant
                    end <= MAX,
                    MAX < bytes.len() <= usize::MAX,
                    bytes == s.spec_bytes(),
                    forall|j: int| end < j <= MAX ==> !is_char_boundary(bytes, j),
                decreases end,
            {
                end = end - 1;
            }
            proof {
                is_char_boundary_start_end_of_seq(bytes);
                lemma_boundary_floor_at(bytes, MAX as int, end as int);
            }
            let (prefix, _rest) = s.split_at(end);
            let r = BoundedString { inner: prefix.to_owned() };
            proof {
                assert(encode_utf8(r@) =~= bytes.subrange(0, end as int));
                encode_utf8_decode_utf8(s@);
                encode_utf8_decode_utf8(r@);
                decode_utf8_split(bytes, end as int);
                assert(r@ == decode_utf8(bytes.subrange(0, end as int)));
                let tail = decode_utf8(bytes.subrange(end as int, bytes.len() as int));
                assert(s@ =~= r@ + tail);
                assert((r@ + tail).subrange(0, r@.len() as int) =~= r@);
            }
            r
        }
    }

    /// Append a character; ignored when it would push the encoded length
    /// past `MAX` bytes.
    pub fn push(&mut self, c: char)
        requires
            old(self).wf(),
        ensures
            final(self).wf(),
            encode_utf8(old(self)@.push(c)).len() <= MAX ==> final(self)@ == old(self)@.push(c),
            encode_utf8(old(self)@.push(c)).len() > MAX ==> final(self)@ == old(self)@,
    {
        proof {
            lemma_encode_utf8_snoc(self@, c);
        }
        let cl = char_utf8_len(c);
        let len = self.inner.as_str().len();
        if cl <= MAX && len <= MAX - cl {
            self.inner.push(c);
        }
    }

    /// Remove and return the last character, or `None` when empty.
    pub fn pop(&mut self) -> (r: Option<char>)
        requires
            old(self).wf(),
        ensures
            final(self).wf(),
            old(self)@.len() == 0 ==> r is None && final(self)@ == old(self)@,
            old(self)@.len() > 0 ==> r == Some(old(self)@.last()) && final(self)@ == old(
                self,
            )@.drop_last(),
    {
        proof {
            if self@.len() > 0 {
                lemma_encode_utf8_snoc(self@.drop_last(), self@.last());
                assert(self@.drop_last().push(self@.last()) =~= self@);
            }
        }
        self.inner.pop()
    }

    /// Whether the string holds no characters at all.
    pub fn is_empty(&self) -> (r: bool)
        ensures
            r == (self@.len() == 0),
    {
        self.inner.as_str().is_empty()
    }

    /// Whether the string is blank: empty or white space only.
    pub fn is_blank(&self) -> (r: bool)
        ensures
            r == all_whitespace(self@),
    {
        let sref: &str = self.inner.as_str();
        let n = sref.unicode_len();
        let mut i: usize = 0;
        while i < n
            invariant
                i <= n,
                n == sref@.len(),
                sref@ == self@,
                forall|k: int| 0 <= k < i ==> crate::text::whitespace_char(sref@[k]),
            decreases n - i,
        {
            let c = sref.get_char(i);
            if !is_whitespace_char(c) {
                return false;
            }
            i = i + 1;
        }
        true
    }

    /// Empty the string.
    pub fn clear(&mut self)
        ensures
            final(self).wf(),
            final(self)@ == Seq::<char>::empty(),
    {
        self.inner.clear();
        proof {
            assert(encode_utf8(Seq::<char>::empty()).len() == 0);
        }
    }

    /// The content as an ordinary `String`.
    pub fn to_string(&self) -> (r: String)
        ensures
            r@ == self@,
    {
        self.inner.clone()
    }
}

impl<const MAX: usize> Default for BoundedString<MAX> {
    /// An empty bounded string.
    fn default() -> (r: Self)
        ensures
            r@ == Seq::<char>::empty(),
            r.wf(),
    {
        let r = BoundedString { inner: String::new() };
        proof {
            assert(encode_utf8(Seq::<char>::empty()).len() == 0);
        }
        r
    }
}

/// A Unix timestamp in seconds.
#[derive(Debug, Clone, Copy, PartialEq, Eq, Structural)]
pub struct Timestamp(pub i64);

impl Timestamp {
    /// The seconds this timestamp holds.
    pub open spec fn spec_secs(self) -> i64 {
        self.0
    }

    pub fn new(secs: i64) -> (r: Self)
        ensures
            r.spec_secs() == secs,
    {
        Timestamp(secs)
    }

    /// The current wall-clock time. Nothing is promised of the value; it
    /// depends on the moment of the call.
    pub fn now() -> Self {
        Timestamp(epoch_seconds_now())
    }

    /// The seconds this timestamp holds.
    pub fn seconds(self) -> (r: i64)
        ensures
            r == self.spec_secs(),
    {
        self.0
    }
}

/// A duration in seconds.
#[derive(Debug, Clone, Copy, PartialEq, Eq, Structural)]
pub struct DurationSecs(pub i64);

impl DurationSecs {
    /// The seconds this duration holds.
    pub open spec fn spec_secs(self) -> i64 {
        self.0
    }

    pub fn new(secs: i64) -> (r: Self)
        ensures
            r.spec_secs() == secs,
    {
        DurationSecs(secs)
    }

    pub fn as_secs(self) -> (r: i64)
        ensures
            r == self.spec_secs(),
    {
        self.0
    }
}

/// A stored session's row identifier.
#[derive(Debug, Clone, Copy, PartialEq, Eq, Structural, Hash)]
pub struct SessionId(i64);

impl SessionId {
    /// The raw identifier.
    pub closed spec fn spec_id(self) -> i64 {
        self.0
    }

    pub fn new(id: i64) -> (r: Self)
        ensures
            r.spec_id() == id,
    {
        SessionId(id)
    }

    pub fn value(self) -> (r: i64)
        ensures
            r == self.spec_id(),
    {
        self.0
    }
}

/// A stored category's row identifier.
#[derive(Debug, Clone, Copy, PartialEq, Eq, Structural, Hash)]
pub struct CategoryId(i64);

impl CategoryId {
    /// The raw identifier.
    pub closed spec fn spec_id(self) -> i64 {
        self.0
    }

    pub fn new(id: i64) -> (r: Self)
        ensures
            r.spec_id() == id,
    {
        CategoryId(id)
    }

    pub fn value(self) -> (r: i64)
        ensures
            r == self.spec_id(),
    {
        self.0
    }
}

/// The decimal text for a non-negative number of seconds rendered as
/// "Xh Ym" when at least an hour, else "Xm".
pub open spec fn spec_format_duration(secs: int) -> Seq<char> {
    let minutes = secs / 60;
    let hours = minutes / 60;
    let rem = minutes % 60;
    if hours > 0 {
        dec_digits(hours) + seq!['h', ' '] + dec_digits(rem) + seq!['m']
    } else {
        dec_digits(minutes) + seq!['m']
    }
}

/// A completed pomodoro session record.
#[derive(Debug, Clone)]
pub struct Session {
    pub id: Option<SessionId>,
    pub name: String,
    pub description: Option<String>,
    pub category: String,
    pub started_at: Timestamp,
    pub ended_at: Timestamp,
    pub duration_secs: DurationSecs,
}

impl Session {
    /// Create a new `SessionBuilder`.
    pub fn builder() -> (r: SessionBuilder)
        ensures
            r.name is None,
            r.description is None,
            r.category is None,
            r.started_at is None,
            r.ended_at is None,
            r.duration_secs is None,
    {
        SessionBuilder::new()
    }

    /// An exact copy of this record.
    pub fn duplicate(&self) -> (r: Session)
        ensures
            r == *self,
    {
        Session {
            id: self.id,
            name: self.name.clone(),
            description: match &self.description {
                Some(d) => Some(d.clone()),
                None => None,
            },
            category: self.category.clone(),
            started_at: self.started_at,
            ended_at: self.ended_at,
            duration_secs: self.duration_secs,
        }
    }

    /// Format the duration as "Xh Ym" or "Xm".
    pub fn format_duration(&self) -> (r: String)
        requires
            self.duration_secs.spec_secs() >= 0,
        ensures
            r@ == spec_format_duration(self.duration_secs.spec_secs() as int),
    {
        let total: u64 = self.duration_secs.as_secs() as u64;
        let minutes: u64 = total / 60;
        let hours: u64 = minutes / 60;
        let rem: u64 = minutes % 60;
        if hours > 0 {
            let mut s = u64_to_string(hours);
            s.push('h');
            s.push(' ');
            push_dec_digits(&mut s, rem);
            s.push('m');
            proof {
                assert(s@ =~= dec_digits(hours as int) + seq!['h', ' '] + dec_digits(rem as int)
                    + seq!['m']);
            }
            s
        } else {
            let mut s = u64_to_string(minutes);
            s.push('m');
            proof {
                assert(s@ =~= dec_digits(minutes as int) + seq!['m']);
            }
            s
        }
    }
}

/// Builder for `Session` records.
#[derive(Debug)]
pub struct SessionBuilder {
    pub name: Option<String>,
    pub description: Option<String>,
    pub category: Option<String>,
    pub started_at: Option<Timestamp>,
    pub ended_at: Option<Timestamp>,
    pub duration_secs: Option<DurationSecs>,
}

impl SessionBuilder {
    pub fn new() -> (r: Self)
        ensures
            r.name is None,
            r.description is None,
            r.category is None,
            r.started_at is None,
            r.ended_at is None,
            r.duration_secs is None,
    {
        SessionBuilder {
            name: None,
            description: None,
            category: None,
            started_at: None,
            ended_at: None,
            duration_secs: None,
        }
    }

    pub fn name(self, name: String) -> (r: Self)
        ensures
            r == (SessionBuilder { name: Some(name), ..self }),
    {
        SessionBuilder { name: Some(name), ..self }
    }

    pub fn description(self, desc: Option<String>) -> (r: Self)
        ensures
            r == (SessionBuilder { description: desc, ..self }),
    {
        SessionBuilder { description: desc, ..self }
    }

    pub fn category(self, category: String) -> (r: Self)
        ensures
            r == (SessionBuilder { category: Some(category), ..self }),
    {
        SessionBuilder { category: Some(category), ..self }
    }

    pub fn started_at(self, ts: Timestamp) -> (r: Self)
        ensures
            r == (SessionBuilder { started_at: Some(ts), ..self }),
    {
        SessionBuilder { started_at: Some(ts), ..self }
    }

    pub fn ended_at(self, ts: Timestamp) -> (r: Self)
        ensures
            r == (SessionBuilder { ended_at: Some(ts), ..self }),
    {
        SessionBuilder { ended_at: Some(ts), ..self }
    }

    pub fn duration_secs(self, d: DurationSecs) -> (r: Self)
        ensures
            r == (SessionBuilder { duration_secs: Some(d), ..self }),
    {
        SessionBuilder { duration_secs: Some(d), ..self }
    }

    /// Build the session, returning `None` when a required field is
    /// missing. The description alone is optional.
    pub fn build(self) -> (r: Option<Session>)
        ensures
            r is Some <==> (self.name is Some && self.category is Some && self.started_at is Some
                && self.ended_at is Some && self.duration_secs is Some),
            self.name matches Some(nm) ==> self.category matches Some(ct)
                ==> self.started_at matches Some(st) ==> self.ended_at matches Some(en)
                ==> self.duration_secs matches Some(du) ==> r == Some(
                Session {
                    id: None,
                    name: nm,
                    description: self.description,
                    category: ct,
                    started_at: st,
                    ended_at: en,
                    duration_secs: du,
                },
            ),
    {
        match (self.name, self.category, self.started_at, self.ended_at, self.duration_secs) {
            (Some(name), Some(category), Some(started_at), Some(ended_at), Some(duration_secs)) =>
                Some(
                    Session {
                        id: None,
                        name,
                        description: self.description,
                        category,
                        started_at,
                        ended_at,
                        duration_secs,
                    },
                ),
            _ => None,
        }
    }
}

/// A color attached to a category: an RGB triple, or the terminal's
/// plain gray where no RGB value applies.
#[derive(Debug, Clone, Copy, PartialEq, Eq, Structural)]
pub enum CategoryColor {
    Rgb(u8, u8, u8),
    Gray,
}

/// A category for sessions with an associated color.
#[derive(Debug, Clone)]
pub struct Category {
    pub id: Option<CategoryId>,
    pub name: String,
    pub color: CategoryColor,
}

impl Category {
    /// The built-in categories with their colors.
    pub fn defaults() -> (r: Vec<Self>)
        ensures
            r@.len() == 6,
            r@[0].id is None && r@[0].name@ == "work"@ && r@[0].color == CategoryColor::Rgb(
                255,
                107,
                107,
            ),
            r@[1].id is None && r@[1].name@ == "study"@ && r@[1].color == CategoryColor::Rgb(
                78,
                205,
                196,
            ),
            r@[2].id is None && r@[2].name@ == "coding"@ && r@[2].color == CategoryColor::Rgb(
                69,
                183,
                209,
            ),
            r@[3].id is None && r@[3].name@ == "reading"@ && r@[3].color == CategoryColor::Rgb(
                150,
                206,
                180,
            ),
            r@[4].id is None && r@[4].name@ == "exercise"@ && r@[4].color == CategoryColor::Rgb(
                255,
                234,
                167,
            ),
            r@[5].id is None && r@[5].name@ == "other"@ && r@[5].color == CategoryColor::Rgb(
                223,
                230,
                233,
            ),
    {
        let mut v: Vec<Category> = Vec::new();
        v.push(Category { id: None, name: "work".to_owned(), color: CategoryColor::Rgb(255, 107, 107) });
        v.push(Category { id: None, name: "study".to_owned(), color: CategoryColor::Rgb(78, 205, 196) });
        v.push(Category { id: None, name: "coding".to_owned(), color: CategoryColor::Rgb(69, 183, 209) });
        v.push(Category { id: None, name: "reading".to_owned(), color: CategoryColor::Rgb(150, 206, 180) });
        v.push(Category { id: None, name: "exercise".to_owned(), color: CategoryColor::Rgb(255, 234, 167) });
        v.push(Category { id: None, name: "other".to_owned(), color: CategoryColor::Rgb(223, 230, 233) });
        v
    }
}

/// The value of a hexadecimal digit, or -1 for any other character.
pub open spec fn hex_digit_val(c: char) -> int {
    let u = c as u32;
    if 48 <= u <= 57 {
        u - 48
    } else if 65 <= u <= 70 {
        u - 55
    } else if 97 <= u <= 102 {
        u - 87
    } else {
        -1
    }
}

/// Whether `c` is a hexadecimal digit.
pub open spec fn is_hex_digit(c: char) -> bool {
    hex_digit_val(c) >= 0
}

/// The value of a two-character hexadecimal group, read as an unsigned
/// number parser would: an optional leading plus sign is allowed, and any
/// invalid group falls back to 128.
pub open spec fn hex_pair_value(c1: char, c2: char) -> u8 {
    if c1 == '+' && is_hex_digit(c2) {
        hex_digit_val(c2) as u8
    } else if is_hex_digit(c1) && is_hex_digit(c2) {
        (hex_digit_val(c1) * 16 + hex_digit_val(c2)) as u8
    } else {
        128
    }
}

/// The color a hex string denotes: after an optional leading '#', exactly
/// six characters read in pairs as red, green and blue; anything of
/// another length is gray.
pub open spec fn spec_parse_hex_color(s: Seq<char>) -> CategoryColor {
    let t = if s.len() > 0 && s[0] == '#' {
        s.drop_first()
    } else {
        s
    };
    if t.len() != 6 {
        CategoryColor::Gray
    } else {
        CategoryColor::Rgb(
            hex_pair_value(t[0], t[1]),
            hex_pair_value(t[2], t[3]),
            hex_pair_value(t[4], t[5]),
        )
    }
}

/// Decide whether `c` is a hexadecimal digit, and its value.
fn hex_digit(c: char) -> (r: Option<u8>)
    ensures
        r is Some <==> is_hex_digit(c),
        r matches Some(v) ==> v == hex_digit_val(c),
{
    let u = c as u32;
    if 48 <= u && u <= 57 {
        Some((u - 48) as u8)
    } else if 65 <= u && u <= 70 {
        Some((u - 55) as u8)
    } else if 97 <= u && u <= 102 {
        Some((u - 87) as u8)
    } else {
        None
    }
}

/// Read a two-character hexadecimal group with the 128 fallback.
fn hex_pair(c1: char, c2: char) -> (v: u8)
    ensures
        v == hex_pair_value(c1, c2),
{
    match (hex_digit(c1), hex_digit(c2)) {
        (Some(h), Some(l)) => h * 16 + l,
        (None, Some(l)) => if c1 == '+' {
            l
        } else {
            128
        },
        _ => 128,
    }
}

/// Parse a hex color string like "#FF6B6B"; any string that is not six
/// hex-pair characters after the optional '#' yields gray, and each
/// unreadable pair falls back to 128.
pub fn parse_hex_color(hex: &str) -> (r: CategoryColor)
    ensures
        r == spec_parse_hex_color(hex@),
{
    let n = hex.unicode_len();
    let off: usize = if n > 0 && hex.get_char(0) == '#' {
        1
    } else {
        0
    };
    if n - off != 6 {
        return CategoryColor::Gray;
    }
    let ghost t = if hex@.len() > 0 && hex@[0] == '#' {
        hex@.drop_first()
    } else {
        hex@
    };
    proof {
        assert(t =~= hex@.subrange(off as int, n as int));
    }
    let r0 = hex_pair(hex.get_char(off), hex.get_char(off + 1));
    let g = hex_pair(hex.get_char(off + 2), hex.get_char(off + 3));
    let b = hex_pair(hex.get_char(off + 4), hex.get_char(off + 5));
    CategoryColor::Rgb(r0, g, b)
}

/// The uppercase hexadecimal digit character for a value in 0..=15.
pub open spec fn hex_upper_char(d: int) -> char {
    if d == 0 {
        '0'
    } else if d == 1 {
        '1'
    } else if d == 2 {
        '2'
    } else if d == 3 {
        '3'
    } else if d == 4 {
        '4'
    } else if d == 5 {
        '5'
    } else if d == 6 {
        '6'
    } else if d == 7 {
        '7'
    } else if d == 8 {
        '8'
    } else if d == 9 {
        '9'
    } else if d == 10 {
        'A'
    } else if d == 11 {
        'B'
    } else if d == 12 {
        'C'
    } else if d == 13 {
        'D'
    } else if d == 14 {
        'E'
    } else {
        'F'
    }
}

/// The two uppercase hex digits of a byte.
pub open spec fn hex_byte_chars(b: int) -> Seq<char> {
    seq![hex_upper_char(b / 16), hex_upper_char(b % 16)]
}

/// The hex text of a color: '#' and six uppercase digits; gray renders as
/// the mid-gray "#808080".
pub open spec fn spec_format_hex_color(c: CategoryColor) -> Seq<char> {
    match c {
        CategoryColor::Rgb(r, g, b) => seq!['#'] + hex_byte_chars(r as int) + hex_byte_chars(
            g as int,
        ) + hex_byte_chars(b as int),
        CategoryColor::Gray => seq!['#', '8', '0', '8', '0', '8', '0'],
    }
}

/// The uppercase hexadecimal digit character for a value in 0..=15.
fn hex_upper(d: u8) -> (c: char)
    requires
        d < 16,
    ensures
        c == hex_upper_char(d as int),
{
    match d {
        0 => '0',
        1 => '1',
        2 => '2',
        3 => '3',
        4 => '4',
        5 => '5',
        6 => '6',
        7 => '7',
        8 => '8',
        9 => '9',
        10 => 'A',
        11 => 'B',
        12 => 'C',
        13 => 'D',
        14 => 'E',
        _ => 'F',
    }
}

/// Append the two uppercase hex digits of a byte.
fn push_hex_byte(s: &mut String, b: u8)
    ensures
        final(s)@ == old(s)@ + hex_byte_chars(b as int),
{
    s.push(hex_upper(b / 16));
    s.push(hex_upper(b % 16));
    proof {
        assert(s@ =~= old(s)@ + hex_byte_chars(b as int));
    }
}

/// Format a color as a hex string like "#FF6B6B". Gray, standing for any
/// color without an RGB value, becomes "#808080".
pub fn format_hex_color(color: CategoryColor) -> (r: String)
    ensures
        r@ == spec_format_hex_color(color),
{
    let mut s = String::new();
    s.push('#');
    match color {
        CategoryColor::Rgb(r0, g, b) => {
            push_hex_byte(&mut s, r0);
            push_hex_byte(&mut s, g);
            push_hex_byte(&mut s, b);
            proof {
                assert(s@ =~= spec_format_hex_color(color));
            }
        }
        CategoryColor::Gray => {
            s.push('8');
            s.push('0');
            s.push('8');
            s.push('0');
            s.push('8');
            s.push('0');
            proof {
                assert(s@ =~= spec_format_hex_color(color));
            }
        }
    }
    s
}

/// Aggregated time for one category.
#[derive(Debug, Clone)]
pub struct CategoryStat {
    pub name: String,
    pub total_seconds: i64,
}

/// Timer configuration settings, all in whole seconds or counts.
#[derive(Debug, Clone, Copy, PartialEq, Eq, Structural)]
pub struct Config {
    pub work_duration_secs: i64,
    pub short_break_secs: i64,
    pub long_break_secs: i64,
    pub sessions_until_long_break: i64,
}

impl Config {
    pub const DEFAULT_WORK_SECS: i64 = 25 * 60;

    pub const DEFAULT_SHORT_BREAK_SECS: i64 = 5 * 60;

    pub const DEFAULT_LONG_BREAK_SECS: i64 = 15 * 60;

    pub const DEFAULT_SESSIONS_UNTIL_LONG: i64 = 4;

    /// The stock configuration as a value.
    pub open spec fn spec_default() -> Config {
        Config {
            work_duration_secs: 1500,
            short_break_secs: 300,
            long_break_secs: 900,
            sessions_until_long_break: 4,
        }
    }

    /// All four values are strictly positive.
    pub open spec fn valid(self) -> bool {
        &&& self.work_duration_secs > 0
        &&& self.short_break_secs > 0
        &&& self.long_break_secs > 0
        &&& self.sessions_until_long_break > 0
    }

    /// Check that all config values are valid (positive durations and a
    /// positive session count).
    pub fn is_valid(&self) -> (r: bool)
        ensures
            r == self.valid(),
    {
        self.work_duration_secs > 0 && self.short_break_secs > 0 && self.long_break_secs > 0
            && self.sessions_until_long_break > 0
    }
}

impl Default for Config {
    /// The stock configuration: 25 minute work phases, 5 and 15 minute
    /// breaks, a long break every 4th session.
    fn default() -> (r: Self)
        ensures
            r == Config::spec_default(),
            r.valid(),
    {
        Config {
            work_duration_secs: Config::DEFAULT_WORK_SECS,
            short_break_secs: Config::DEFAULT_SHORT_BREAK_SECS,
            long_break_secs: Config::DEFAULT_LONG_BREAK_SECS,
            sessions_until_long_break: Config::DEFAULT_SESSIONS_UNTIL_LONG,
        }
    }
}

} // verus!
