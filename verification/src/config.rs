//! The configuration of the window that shows the simulation, and the text
//! form in which it is kept.
//!
//! A configuration text is read line by line. An empty line and a line that
//! starts with `#` are passed over. Any other line is split at whitespace:
//! `samples N` sets the number of samples, `resolution W H` sets the width
//! and the height. Whatever else a line holds is rejected; a rejected line
//! changes nothing but what it could set.
use vstd::prelude::*;
use vstd::string::*;

verus! {

/// How the window is opened: the number of samples per pixel and its size.
#[derive(Copy, Clone, Debug, PartialEq, Eq, Structural)]
pub struct Config {
    pub msaa_samples: u16,
    pub width: u32,
    pub height: u32,
}

/// What reading a configuration text gives: the configuration, and for each
/// complaint the number of the line it is about, counted from zero, in the
/// order of the text. A `resolution` line can draw two complaints.
#[derive(Debug, PartialEq, Eq)]
pub struct Parsed {
    pub config: Config,
    pub rejected: Vec<usize>,
}

/// The default configuration: no multisampling, 600 wide, 800 high.
pub open spec fn default_config() -> Config {
    Config { msaa_samples: 0, width: 600, height: 800 }
}

/// Whether the character is white space: one of the code points with the
/// Unicode property White_Space.
pub open spec fn is_whitespace(c: char) -> bool {
    let u = c as u32;
    ||| 0x09 <= u <= 0x0D
    ||| u == 0x20
    ||| u == 0x85
    ||| u == 0xA0
    ||| u == 0x1680
    ||| 0x2000 <= u <= 0x200A
    ||| u == 0x2028
    ||| u == 0x2029
    ||| u == 0x202F
    ||| u == 0x205F
    ||| u == 0x3000
}

/// Whether the character is one of the digits `0` to `9`.
pub open spec fn is_digit(c: char) -> bool {
    0x30 <= c as u32 <= 0x39
}

/// The number that a sequence of digits writes in base ten.
pub open spec fn decimal(digits: Seq<char>) -> nat
    decreases digits.len(),
{
    if digits.len() == 0 {
        0
    } else {
        (decimal(digits.drop_last()) * 10 + (digits.last() as u32 - 0x30)) as nat
    }
}

/// The token without the `+` that it may start with.
pub open spec fn unsigned_part(token: Seq<char>) -> Seq<char> {
    if token.len() > 0 && token[0] == '+' {
        token.subrange(1, token.len() as int)
    } else {
        token
    }
}

/// Whether every character is a digit.
pub open spec fn all_digits(s: Seq<char>) -> bool {
    forall|i: int| 0 <= i < s.len() ==> is_digit(#[trigger] s[i])
}

/// The number that a token writes, if it writes one that is at most `max`:
/// an optional `+`, then one digit or more and nothing else.
pub open spec fn number(token: Seq<char>, max: nat) -> Option<nat> {
    let digits = unsigned_part(token);
    if digits.len() > 0 && all_digits(digits) && decimal(digits) <= max {
        Some(decimal(digits))
    } else {
        None
    }
}

/// The index of the first line feed of `text` at or after `from`, or the
/// length of `text` where there is none.
pub open spec fn line_end(text: Seq<char>, from: int) -> int
    decreases text.len() - from,
{
    if from >= text.len() {
        text.len() as int
    } else if text[from] == '\n' {
        from
    } else {
        line_end(text, from + 1)
    }
}

/// The line of `text` that starts at `from` and ends before `end`: without
/// the line feed at `end`, and without a carriage return just before that
/// line feed. A carriage return that no line feed follows stays.
pub open spec fn line_between(text: Seq<char>, from: int, end: int) -> Seq<char> {
    if end < text.len() && from < end && text[end - 1] == '\r' {
        text.subrange(from, end - 1)
    } else {
        text.subrange(from, end)
    }
}

/// A line that starts within the text ends at or after its start and within
/// or at the end of the text, at a line feed if it ends within.
pub proof fn line_end_is_within(text: Seq<char>, from: int)
    requires
        0 <= from <= text.len(),
    ensures
        from <= line_end(text, from) <= text.len(),
        line_end(text, from) < text.len() ==> text[line_end(text, from)] == '\n',
        forall|i: int| from <= i < line_end(text, from) ==> text[i] != '\n',
    decreases text.len() - from,
{
    if from < text.len() && text[from] != '\n' {
        line_end_is_within(text, from + 1);
    }
}

/// The lines of `text` from the index `from` on. A line ends with a line
/// feed or with the text; a text that ends with a line feed has no empty
/// line after it.
pub open spec fn lines_from(text: Seq<char>, from: int) -> Seq<Seq<char>>
    decreases text.len() - from,
{
    if from < 0 || from >= text.len() {
        Seq::empty()
    } else {
        proof {
            line_end_is_within(text, from);
        }
        let end = line_end(text, from);
        if end >= text.len() {
            seq![line_between(text, from, end)]
        } else {
            seq![line_between(text, from, end)] + lines_from(text, end + 1)
        }
    }
}

/// The lines of `text`.
pub open spec fn lines(text: Seq<char>) -> Seq<Seq<char>> {
    lines_from(text, 0)
}

/// The index of the first character of `line` at or after `from` that is
/// white space (`white`) or is not (`!white`), or the length of `line`.
pub open spec fn next_of(line: Seq<char>, from: int, white: bool) -> int
    decreases line.len() - from,
{
    if from >= line.len() {
        line.len() as int
    } else if is_whitespace(line[from]) == white {
        from
    } else {
        next_of(line, from + 1, white)
    }
}

/// The token of `line` with the number `k`, counted from zero, among those
/// that start at or after `from`: a token is a longest run of characters
/// that are not white space.
pub open spec fn token(line: Seq<char>, from: int, k: nat) -> Option<Seq<char>>
    decreases k,
{
    let start = next_of(line, from, false);
    let end = next_of(line, start, true);
    if start >= line.len() {
        None
    } else if k == 0 {
        Some(line.subrange(start, end))
    } else {
        token(line, end, (k - 1) as nat)
    }
}

/// The word `samples`.
pub open spec fn samples_word() -> Seq<char> {
    seq!['s', 'a', 'm', 'p', 'l', 'e', 's']
}

/// The word `resolution`.
pub open spec fn resolution_word() -> Seq<char> {
    seq!['r', 'e', 's', 'o', 'l', 'u', 't', 'i', 'o', 'n']
}

/// Whether the line is passed over: it is empty or starts with `#`.
pub open spec fn is_passed_over(line: Seq<char>) -> bool {
    line.len() == 0 || line[0] == '#'
}

/// The number that the token of `line` with the number `k` writes, if there
/// is such a token and it writes a number that is at most `max`.
pub open spec fn value(line: Seq<char>, k: nat, max: nat) -> Option<nat> {
    match token(line, 0, k) {
        Some(t) => number(t, max),
        None => None,
    }
}

impl Config {
    /// The configuration after a line of a configuration text.
    pub open spec fn after_line(self, line: Seq<char>) -> Config {
        if is_passed_over(line) {
            self
        } else if token(line, 0, 0) == Some(samples_word()) {
            match value(line, 1, u16::MAX as nat) {
                Some(n) => Config { msaa_samples: n as u16, ..self },
                None => self,
            }
        } else if token(line, 0, 0) == Some(resolution_word()) {
            Config {
                msaa_samples: self.msaa_samples,
                width: match value(line, 1, u32::MAX as nat) {
                    Some(n) => n as u32,
                    None => self.width,
                },
                height: match value(line, 2, u32::MAX as nat) {
                    Some(n) => n as u32,
                    None => self.height,
                },
            }
        } else {
            self
        }
    }

    /// The configuration after the first `upto` of `lines`, each taken in
    /// turn, starting from the default.
    pub open spec fn after_lines(lines: Seq<Seq<char>>, upto: int) -> Config
        decreases upto,
    {
        if upto <= 0 {
            default_config()
        } else {
            Config::after_lines(lines, upto - 1).after_line(lines[upto - 1])
        }
    }

    /// The default configuration: no multisampling, 600 wide, 800 high.
    pub fn new() -> (config: Self)
        ensures
            config == default_config(),
    {
        Config { msaa_samples: 0, width: 600, height: 800 }
    }
}

/// How many complaints a line draws: none if it is passed over; one for a
/// `samples` line without a number that fits; one for each of the width and
/// the height that a `resolution` line lacks; one for any other line.
pub open spec fn complaints(line: Seq<char>) -> nat {
    if is_passed_over(line) {
        0
    } else if token(line, 0, 0) == Some(samples_word()) {
        if value(line, 1, u16::MAX as nat) is Some {
            0
        } else {
            1
        }
    } else if token(line, 0, 0) == Some(resolution_word()) {
        let width: nat = if value(line, 1, u32::MAX as nat) is Some {
            0
        } else {
            1
        };
        let height: nat = if value(line, 2, u32::MAX as nat) is Some {
            0
        } else {
            1
        };
        width + height
    } else {
        1
    }
}

/// The complaints about the first `upto` of `lines`: the number of each line
/// as often as it draws a complaint, in rising order.
pub open spec fn rejections(lines: Seq<Seq<char>>, upto: int) -> Seq<usize>
    decreases upto,
{
    if upto <= 0 {
        Seq::empty()
    } else {
        rejections(lines, upto - 1) + Seq::new(
            complaints(lines[upto - 1]),
            |i: int| (upto - 1) as usize,
        )
    }
}

/// A number written with more digits is no smaller: the first `upto` digits
/// write at most what all of them write.
pub proof fn decimal_grows_with_digits(digits: Seq<char>, upto: int)
    requires
        0 <= upto <= digits.len(),
        all_digits(digits),
    ensures
        decimal(digits.take(upto)) <= decimal(digits),
    decreases digits.len() - upto,
{
    if upto < digits.len() {
        decimal_grows_with_digits(digits, upto + 1);
        assert(digits.take(upto + 1).drop_last() =~= digits.take(upto));
    } else {
        assert(digits.take(upto) =~= digits);
    }
}

/// Whether the character is white space.
pub fn whitespace(c: char) -> (r: bool)
    ensures
        r == is_whitespace(c),
{
    let u: u32 = c as u32;
    (0x09 <= u && u <= 0x0D) || u == 0x20 || u == 0x85 || u == 0xA0 || u == 0x1680 || (0x2000 <= u
        && u <= 0x200A) || u == 0x2028 || u == 0x2029 || u == 0x202F || u == 0x205F || u == 0x3000
}

/// The characters of a text.
fn characters(text: &str) -> (chars: Vec<char>)
    ensures
        chars@ == text@,
{
    broadcast use vstd::string::axiom_spec_iter;

    let mut chars: Vec<char> = Vec::new();
    for c in it: text.chars()
        invariant
            chars@ == it.seq().take(it.index() as int),
            it.seq() == text@,
    {
        chars.push(c);
    }
    chars
}

/// The characters of `text` from `from` up to `end`.
fn copy_of(text: &Vec<char>, from: usize, end: usize) -> (part: Vec<char>)
    requires
        from <= end <= text.len(),
    ensures
        part@ == text@.subrange(from as int, end as int),
{
    let mut part: Vec<char> = Vec::new();
    let mut i: usize = from;
    while i < end
        invariant
            from <= i <= end <= text.len(),
            part@ == text@.subrange(from as int, i as int),
        decreases end - i,
    {
        part.push(text[i]);
        i += 1;
    }
    part
}

/// Whether two sequences of characters are the same.
fn same(a: &Vec<char>, b: &Vec<char>) -> (r: bool)
    ensures
        r == (a@ == b@),
{
    if a.len() != b.len() {
        return false;
    }
    let mut i: usize = 0;
    while i < a.len()
        invariant
            a.len() == b.len(),
            i <= a.len(),
            forall|k: int| 0 <= k < i ==> a[k] == b[k],
        decreases a.len() - i,
    {
        if a[i] != b[i] {
            return false;
        }
        i += 1;
    }
    assert(a@ =~= b@);
    true
}

/// The lines of `text`, in order.
pub fn split_lines(text: &Vec<char>) -> (result: Vec<Vec<char>>)
    ensures
        result.len() == lines(text@).len(),
        forall|i: int| 0 <= i < result.len() ==> (#[trigger] result[i])@ == lines(text@)[i],
{
    let mut result: Vec<Vec<char>> = Vec::new();
    let mut from: usize = 0;
    while from < text.len()
        invariant
            from <= text.len(),
            result.len() + lines_from(text@, from as int).len() == lines(text@).len(),
            forall|i: int| 0 <= i < result.len() ==> (#[trigger] result[i])@ == lines(text@)[i],
            forall|j: int|
                0 <= j < lines_from(text@, from as int).len() ==> #[trigger] lines_from(
                    text@,
                    from as int,
                )[j] == lines(text@)[result.len() + j],
        decreases text.len() - from,
    {
        let mut end: usize = from;
        while end < text.len() && text[end] != '\n'
            invariant
                from <= end <= text.len(),
                line_end(text@, end as int) == line_end(text@, from as int),
            decreases text.len() - end,
        {
            end += 1;
        }
        let stop: usize = if end < text.len() && from < end && text[end - 1] == '\r' {
            end - 1
        } else {
            end
        };
        let line: Vec<char> = copy_of(text, from, stop);
        proof {
            let rest = lines_from(text@, from as int);
            assert(rest[0] == line@);
            if end < text.len() {
                let tail = lines_from(text@, end + 1);
                assert forall|j: int| 0 <= j < tail.len() implies #[trigger] tail[j] == lines(
                    text@,
                )[result.len() + 1 + j] by {
                    assert(tail[j] == rest[j + 1]);
                }
            }
        }
        result.push(line);
        if end < text.len() {
            from = end + 1;
        } else {
            from = end;
        }
    }
    result
}

/// The first token of `line` at or after `from`, with the index at which it
/// ends, or `None` where only white space is left.
pub fn next_token(line: &Vec<char>, from: usize) -> (r: Option<(Vec<char>, usize)>)
    ensures
        match r {
            Some((word, end)) => {
                let start = next_of(line@, from as int, false);
                &&& start < line.len()
                &&& end as int == next_of(line@, start, true)
                &&& start < end <= line.len()
                &&& word@ == line@.subrange(start, end as int)
            },
            None => next_of(line@, from as int, false) >= line.len(),
        },
{
    if from >= line.len() {
        return None;
    }
    let mut start: usize = from;
    while start < line.len() && whitespace(line[start])
        invariant
            from <= start <= line.len(),
            next_of(line@, start as int, false) == next_of(line@, from as int, false),
        decreases line.len() - start,
    {
        start += 1;
    }
    if start >= line.len() {
        return None;
    }
    let mut end: usize = start + 1;
    while end < line.len() && !whitespace(line[end])
        invariant
            start < end <= line.len(),
            next_of(line@, end as int, true) == next_of(line@, start as int, true),
        decreases line.len() - end,
    {
        end += 1;
    }
    Some((copy_of(line, start, end), end))
}

/// The number that `word` writes, if it writes one that is at most `max`.
pub fn parse_number(word: &Vec<char>, max: u32) -> (r: Option<u32>)
    ensures
        match r {
            Some(n) => number(word@, max as nat) == Some(n as nat),
            None => number(word@, max as nat) is None,
        },
{
    let first: usize = if word.len() > 0 && word[0] == '+' {
        1
    } else {
        0
    };
    let ghost digits = unsigned_part(word@);
    if first >= word.len() {
        return None;
    }
    let mut total: u32 = 0;
    let mut i: usize = first;
    while i < word.len()
        invariant
            first <= i <= word.len(),
            digits == unsigned_part(word@),
            digits == word@.subrange(first as int, word.len() as int),
            forall|k: int| 0 <= k < i - first ==> is_digit(#[trigger] digits[k]),
            total == decimal(digits.take(i - first)),
            total <= max,
        decreases word.len() - i,
    {
        let u: u32 = word[i] as u32;
        if u < 0x30 || u > 0x39 {
            assert(!is_digit(digits[i - first]));
            return None;
        }
        let digit: u64 = (u - 0x30) as u64;
        let next: u64 = total as u64 * 10 + digit;
        proof {
            assert(digits.take(i - first + 1).drop_last() =~= digits.take(i - first));
        }
        if next > max as u64 {
            proof {
                if all_digits(digits) {
                    decimal_grows_with_digits(digits, i - first + 1);
                }
            }
            return None;
        }
        total = next as u32;
        i += 1;
    }
    assert(digits.take(digits.len() as int) =~= digits);
    Some(total)
}

/// The word `samples`.
fn samples() -> (word: Vec<char>)
    ensures
        word@ == samples_word(),
{
    let mut word: Vec<char> = Vec::new();
    word.push('s');
    word.push('a');
    word.push('m');
    word.push('p');
    word.push('l');
    word.push('e');
    word.push('s');
    word
}

/// The word `resolution`.
fn resolution() -> (word: Vec<char>)
    ensures
        word@ == resolution_word(),
{
    let mut word: Vec<char> = Vec::new();
    word.push('r');
    word.push('e');
    word.push('s');
    word.push('o');
    word.push('l');
    word.push('u');
    word.push('t');
    word.push('i');
    word.push('o');
    word.push('n');
    word
}

/// The number that the first token of `line` at or after `from` writes, if
/// there is one and it is at most `max`, and the index at which that token
/// ends, or `from` where there is no token.
fn next_value(line: &Vec<char>, from: usize, max: u32) -> (r: (Option<u32>, usize))
    requires
        from <= line.len(),
    ensures
        r.1 <= line.len(),
        match token(line@, from as int, 0) {
            Some(t) => r.1 as int == next_of(line@, next_of(line@, from as int, false), true)
                && number(t, max as nat) == match r.0 {
                Some(n) => Some(n as nat),
                None => None,
            },
            None => r.0 is None && r.1 == from,
        },
{
    match next_token(line, from) {
        Some((word, end)) => (parse_number(&word, max), end),
        None => (None, from),
    }
}

impl Config {
    /// Takes in one line of a configuration text and says how many complaints
    /// it draws.
    pub fn read_line(&mut self, line: &Vec<char>) -> (complained: u8)
        ensures
            *final(self) == old(self).after_line(line@),
            complained as nat == complaints(line@),
    {
        if line.len() == 0 || line[0] == '#' {
            return 0;
        }
        let (keyword, end): (Vec<char>, usize) = match next_token(line, 0) {
            Some(found) => found,
            None => {
                return 1;
            },
        };
        proof {
            reveal_with_fuel(token, 3);
        }
        if same(&keyword, &samples()) {
            let (samples, _): (Option<u32>, usize) = next_value(line, end, 0xFFFF);
            match samples {
                Some(n) => {
                    self.msaa_samples = n as u16;
                    0
                },
                None => 1,
            }
        } else if same(&keyword, &resolution()) {
            let mut complained: u8 = 0;
            let (width, after): (Option<u32>, usize) = next_value(line, end, 0xFFFF_FFFF);
            match width {
                Some(n) => {
                    self.width = n;
                },
                None => {
                    complained = complained + 1;
                },
            }
            let (height, _): (Option<u32>, usize) = next_value(line, after, 0xFFFF_FFFF);
            match height {
                Some(n) => {
                    self.height = n;
                },
                None => {
                    complained = complained + 1;
                },
            }
            complained
        } else {
            1
        }
    }

    /// Reads a configuration from the lines of a configuration text.
    pub fn from_lines(lines: &Vec<Vec<char>>) -> (parsed: Parsed)
        ensures
            parsed.config == Config::after_lines(
                Seq::new(lines.len() as nat, |i: int| lines[i]@),
                lines.len() as int,
            ),
            parsed.rejected@ == rejections(
                Seq::new(lines.len() as nat, |i: int| lines[i]@),
                lines.len() as int,
            ),
    {
        let ghost all = Seq::new(lines.len() as nat, |i: int| lines[i]@);
        let mut config: Config = Config::new();
        let mut rejected: Vec<usize> = Vec::new();
        let mut i: usize = 0;
        while i < lines.len()
            invariant
                i <= lines.len(),
                all == Seq::new(lines.len() as nat, |i: int| lines[i]@),
                config == Config::after_lines(all, i as int),
                rejected@ == rejections(all, i as int),
            decreases lines.len() - i,
        {
            let complained: u8 = config.read_line(&lines[i]);
            let ghost before = rejected@;
            let mut k: u8 = 0;
            while k < complained
                invariant
                    k <= complained,
                    rejected@ == before + Seq::new(k as nat, |j: int| i),
                decreases complained - k,
            {
                rejected.push(i);
                k += 1;
            }
            i += 1;
        }
        Parsed { config, rejected }
    }

    /// Reads a configuration from a configuration text: the default
    /// configuration, changed by each line of the text in turn.
    pub fn from_text(text: &str) -> (parsed: Parsed)
        ensures
            parsed.config == Config::after_lines(lines(text@), lines(text@).len() as int),
            parsed.rejected@ == rejections(lines(text@), lines(text@).len() as int),
    {
        let chars: Vec<char> = characters(text);
        let split: Vec<Vec<char>> = split_lines(&chars);
        assert(Seq::new(split.len() as nat, |i: int| split[i]@) =~= lines(text@));
        Config::from_lines(&split)
    }
}

} // verus!
