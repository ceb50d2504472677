use vstd::prelude::*;

verus! {

/// The shortest pattern accepted, in characters.
pub const MIN_PATTERN_LEN: usize = 1;

/// The longest pattern accepted, in characters.
pub const MAX_PATTERN_LEN: usize = 9;

/// What `str::trim` returns for a string with the characters `s`.
pub uninterp spec fn trimmed_of(s: Seq<char>) -> Seq<char>;

/// Relies on `str::trim`: the result depends on the characters of its
/// argument alone.
#[verifier::external_body]
fn trim_text(s: &str) -> (r: &str)
    ensures
        r@ == trimmed_of(s@),
{
    s.trim()
}

/// `c` is an ASCII decimal digit.
pub open spec fn is_digit(c: char) -> bool {
    '0' <= c <= '9'
}

/// The value of a sequence of decimal digits.
pub open spec fn digits_value(s: Seq<char>) -> nat
    decreases s.len(),
{
    if s.len() == 0 {
        0
    } else {
        digits_value(s.drop_last()) * 10 + (s.last() as nat - '0' as nat) as nat
    }
}

/// The text of an unsigned integer: an optional `+`, then one or more digits.
pub open spec fn unsigned_digits(s: Seq<char>) -> Option<Seq<char>> {
    let d = if s.len() > 0 && s[0] == '+' {
        s.drop_first()
    } else {
        s
    };
    if d.len() > 0 && forall|i: int| 0 <= i < d.len() ==> is_digit(#[trigger] d[i]) {
        Some(d)
    } else {
        None
    }
}

/// What `s.parse::<usize>()` gives: the value, where `s` is the text of an
/// unsigned integer that fits.
pub open spec fn usize_of(s: Seq<char>) -> Option<usize> {
    match unsigned_digits(s) {
        Some(d) => if digits_value(d) <= usize::MAX {
            Some(digits_value(d) as usize)
        } else {
            None
        },
        None => None,
    }
}

/// Relies on `<usize as FromStr>::from_str`: an optional `+` and decimal
/// digits, no other character, and a value that fits, give that value; all
/// else is an error.
#[verifier::external_body]
fn parse_usize(s: &str) -> (r: Option<usize>)
    ensures
        r == usize_of(s@),
{
    s.parse::<usize>().ok()
}

/// Why a search cannot start.
#[derive(Debug, PartialEq, Eq, Structural)]
pub enum ConfigError {
    /// The pattern is shorter or longer than the bounds allow.
    PatternLength,
    /// The worker count is not a positive integer.
    WorkerCount,
}

/// The settings of one search, fixed once it starts.
pub struct SearchConfig {
    pub pattern: String,
    pub case_sensitive: bool,
    pub worker_count: usize,
}

impl SearchConfig {
    /// The pattern's length is within bounds and there is a worker.
    pub open spec fn wf(&self) -> bool {
        MIN_PATTERN_LEN <= self.pattern@.len() <= MAX_PATTERN_LEN && self.worker_count >= 1
    }

    /// Checks the settings: the pattern's length first, then the worker count.
    pub fn new(pattern: String, case_sensitive: bool, worker_count: usize) -> (r: Result<
        SearchConfig,
        ConfigError,
    >)
        ensures
            r matches Ok(c) ==> c.pattern@ == pattern@ && c.case_sensitive == case_sensitive
                && c.worker_count == worker_count && c.wf(),
            r is Ok <==> (MIN_PATTERN_LEN <= pattern@.len() <= MAX_PATTERN_LEN && worker_count
                >= 1),
            r == Err::<SearchConfig, ConfigError>(ConfigError::PatternLength) <==> !(
            MIN_PATTERN_LEN <= pattern@.len() <= MAX_PATTERN_LEN),
            r == Err::<SearchConfig, ConfigError>(ConfigError::WorkerCount) <==> (MIN_PATTERN_LEN
                <= pattern@.len() <= MAX_PATTERN_LEN && worker_count == 0),
    {
        let n = pattern.as_str().unicode_len();
        if n < MIN_PATTERN_LEN || n > MAX_PATTERN_LEN {
            return Err(ConfigError::PatternLength);
        }
        if worker_count == 0 {
            return Err(ConfigError::WorkerCount);
        }
        Ok(SearchConfig { pattern, case_sensitive, worker_count })
    }
}

/// The pattern an operator typed: the line without surrounding whitespace.
pub fn parse_pattern(line: &str) -> (r: String)
    ensures
        r@ == trimmed_of(line@),
{
    String::from_str(trim_text(line))
}

/// The code of `c`, with an ASCII capital letter taken as its small form.
pub open spec fn ascii_lower(c: char) -> u32 {
    if 'A' <= c <= 'Z' {
        (c as u32 + 32) as u32
    } else {
        c as u32
    }
}

/// `a` and `b` are the same text when ASCII case is ignored.
pub open spec fn same_ignoring_ascii_case(a: Seq<char>, b: Seq<char>) -> bool {
    a.len() == b.len() && forall|i: int| 0 <= i < a.len() ==> ascii_lower(#[trigger] a[i])
        == ascii_lower(b[i])
}

fn lower_ascii_code(c: char) -> (r: u32)
    ensures
        r == ascii_lower(c),
{
    if 'A' <= c && c <= 'Z' {
        c as u32 + 32
    } else {
        c as u32
    }
}

/// Whether `a` and `b` are the same text when ASCII case is ignored.
pub fn eq_ignoring_ascii_case(a: &str, b: &str) -> (r: bool)
    ensures
        r == same_ignoring_ascii_case(a@, b@),
{
    let n = a.unicode_len();
    if n != b.unicode_len() {
        return false;
    }
    let mut i: usize = 0;
    while i < n
        invariant
            n == a@.len(),
            n == b@.len(),
            i <= n,
            forall|j: int| 0 <= j < i ==> ascii_lower(#[trigger] a@[j]) == ascii_lower(b@[j]),
        decreases n - i,
    {
        if lower_ascii_code(a.get_char(i)) != lower_ascii_code(b.get_char(i)) {
            return false;
        }
        i = i + 1;
    }
    true
}

/// The answer to "case-sensitive?": yes, in any ASCII case, with
/// surrounding whitespace ignored, means true; anything else false.
pub fn parse_case_sensitivity(line: &str) -> (r: bool)
    ensures
        r == same_ignoring_ascii_case(trimmed_of(line@), "yes"@),
{
    eq_ignoring_ascii_case(trim_text(line), "yes")
}

/// The worker count an operator typed: the line, without surrounding
/// whitespace, as an unsigned integer of at least one.
pub fn parse_thread_count(line: &str) -> (r: Result<usize, ConfigError>)
    ensures
        r matches Ok(n) ==> usize_of(trimmed_of(line@)) == Some(n) && n >= 1,
        r is Err ==> r == Err::<usize, ConfigError>(ConfigError::WorkerCount),
        r is Ok <==> (usize_of(trimmed_of(line@)) matches Some(n) && n >= 1),
{
    match parse_usize(trim_text(line)) {
        Some(n) => if n >= 1 {
            Ok(n)
        } else {
            Err(ConfigError::WorkerCount)
        },
        None => Err(ConfigError::WorkerCount),
    }
}

} // verus!
