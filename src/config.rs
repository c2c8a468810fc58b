use vstd::prelude::*;

verus! {

/// Status of the Bluetooth daemon's `DeviceID` setting.
#[derive(Debug, Clone, PartialEq)]
pub enum DeviceIdStatus {
    /// Set to the expected vendor identifier.
    Configured,
    /// No `DeviceID` line is present.
    NotConfigured,
    /// Another value is set.
    WrongValue(String),
    /// The configuration file does not exist.
    FileNotFound,
    /// The configuration file could not be read.
    ParseError(String),
}

/// Unicode `White_Space`, as `char::is_whitespace` and `str::trim` use it.
pub open spec fn is_ws(c: char) -> bool {
    ('\u{9}' <= c <= '\u{d}') || c == ' ' || c == '\u{85}' || c == '\u{a0}' || c == '\u{1680}'
        || ('\u{2000}' <= c <= '\u{200a}') || c == '\u{2028}' || c == '\u{2029}' || c == '\u{202f}'
        || c == '\u{205f}' || c == '\u{3000}'
}

/// The first index at or after `i` that holds no white space (or the end).
pub open spec fn skip_ws(s: Seq<char>, i: int) -> int
    decreases s.len() - i,
{
    if 0 <= i < s.len() && is_ws(s[i]) {
        skip_ws(s, i + 1)
    } else {
        i
    }
}

/// The end of `s.subrange(lo, j)` once trailing white space is dropped.
pub open spec fn back_ws(s: Seq<char>, lo: int, j: int) -> int
    decreases j - lo,
{
    if lo < j <= s.len() && is_ws(s[j - 1]) {
        back_ws(s, lo, j - 1)
    } else {
        j
    }
}

/// `s` without leading and trailing white space.
pub open spec fn trim(s: Seq<char>) -> Seq<char> {
    let a = skip_ws(s, 0);
    s.subrange(a, back_ws(s, a, s.len() as int))
}

/// The first index at or after `i` that holds `c` (or the end).
pub open spec fn find_from(s: Seq<char>, c: char, i: int) -> int
    decreases s.len() - i,
{
    if i >= s.len() || i < 0 {
        s.len() as int
    } else if s[i] == c {
        i
    } else {
        find_from(s, c, i + 1)
    }
}

/// The key of the setting.
pub open spec fn device_id_key() -> Seq<char> {
    seq!['D', 'e', 'v', 'i', 'c', 'e', 'I', 'D']
}

/// The expected value of the setting: Apple's vendor identifier.
pub open spec fn apple_device_id() -> Seq<char> {
    seq!['b', 'l', 'u', 'e', 't', 'o', 'o', 't', 'h', ':', '0', '0', '4', 'C', ':', '0', '0', '0', '0', ':', '0', '0', '0', '0']
}

/// The code of `c` with ASCII upper case taken to lower case.
pub open spec fn ascii_lower(c: char) -> u32 {
    if 'A' <= c <= 'Z' {
        (c as u32 + 32) as u32
    } else {
        c as u32
    }
}

/// Equality up to ASCII case.
pub open spec fn eq_ignore_ascii_case(a: Seq<char>, b: Seq<char>) -> bool {
    a.len() == b.len() && forall|i: int| 0 <= i < a.len() ==> ascii_lower(#[trigger] a[i]) == ascii_lower(b[i])
}

/// Whether the trimmed line `t` sets the key: it starts with it and holds `=`.
pub open spec fn sets_key(t: Seq<char>) -> bool {
    t.len() >= 8 && t.subrange(0, 8) == device_id_key() && find_from(t, '=', 0) < t.len()
}

/// The value a setting line gives: the text between its first `=` and the
/// next `=` (or the end), trimmed.
pub open spec fn setting_value(t: Seq<char>) -> Seq<char> {
    let p = find_from(t, '=', 0);
    trim(t.subrange(p + 1, find_from(t, '=', p + 1)))
}

/// What a line says of the setting, if anything.
pub open spec fn line_says(line: Seq<char>, r: Option<DeviceIdStatus>) -> bool {
    let t = trim(line);
    if sets_key(t) {
        if eq_ignore_ascii_case(setting_value(t), apple_device_id()) {
            r matches Some(DeviceIdStatus::Configured)
        } else {
            r matches Some(DeviceIdStatus::WrongValue(v)) && v@ == setting_value(t)
        }
    } else {
        r is None
    }
}

/// The index of the first line from `i` on that sets the key (or the end).
pub open spec fn first_setting(lines: Seq<Seq<char>>, i: int) -> int
    decreases lines.len() - i,
{
    if i >= lines.len() || i < 0 {
        lines.len() as int
    } else if sets_key(trim(lines[i])) {
        i
    } else {
        first_setting(lines, i + 1)
    }
}

/// Relies on `String::push`: appends one character.
#[verifier::external_body]
fn push_char(s: &mut String, c: char)
    ensures
        final(s)@ == old(s)@.push(c),
{
    s.push(c);
}

/// Whether `c` is Unicode white space.
pub fn is_whitespace(c: char) -> (r: bool)
    ensures
        r == is_ws(c),
{
    ('\u{9}' <= c && c <= '\u{d}') || c == ' ' || c == '\u{85}' || c == '\u{a0}' || c == '\u{1680}'
        || ('\u{2000}' <= c && c <= '\u{200a}') || c == '\u{2028}' || c == '\u{2029}' || c == '\u{202f}'
        || c == '\u{205f}' || c == '\u{3000}'
}

/// The bounds of `s[lo..hi]` once white space on both sides is dropped.
fn trim_bounds(s: &[char], lo: usize, hi: usize) -> (r: (usize, usize))
    requires
        lo <= hi <= s@.len(),
    ensures
        lo <= r.0 <= r.1 <= hi,
        s@.subrange(r.0 as int, r.1 as int) == trim(s@.subrange(lo as int, hi as int)),
{
    let ghost t = s@.subrange(lo as int, hi as int);
    let mut a: usize = lo;
    while a < hi && is_whitespace(s[a])
        invariant
            lo <= a <= hi <= s@.len(),
            t == s@.subrange(lo as int, hi as int),
            skip_ws(t, 0) == skip_ws(t, a - lo),
        decreases hi - a,
    {
        assert(t[a - lo] == s@[a as int]);
        a = a + 1;
    }
    let mut b: usize = hi;
    while b > a && is_whitespace(s[b - 1])
        invariant
            lo <= a <= b <= hi <= s@.len(),
            t == s@.subrange(lo as int, hi as int),
            a - lo == skip_ws(t, 0),
            back_ws(t, a - lo, t.len() as int) == back_ws(t, a - lo, b - lo),
        decreases b - a,
    {
        assert(t[b - 1 - lo] == s@[b - 1]);
        b = b - 1;
    }
    assert(s@.subrange(a as int, b as int) =~= t.subrange(a - lo, b - lo));
    (a, b)
}

/// The first index from `i` on, below `hi`, that holds `c` (or `hi`).
fn find_char(s: &[char], c: char, lo: usize, i: usize, hi: usize) -> (r: usize)
    requires
        lo <= i <= hi <= s@.len(),
    ensures
        i <= r <= hi,
        r - lo == find_from(s@.subrange(lo as int, hi as int), c, i - lo),
{
    let ghost t = s@.subrange(lo as int, hi as int);
    let mut j: usize = i;
    while j < hi && s[j] != c
        invariant
            lo <= i <= j <= hi <= s@.len(),
            t == s@.subrange(lo as int, hi as int),
            find_from(t, c, i - lo) == find_from(t, c, j - lo),
        decreases hi - j,
    {
        assert(t[j - lo] == s@[j as int]);
        j = j + 1;
    }
    j
}

fn ascii_lower_exec(c: char) -> (r: u32)
    ensures
        r == ascii_lower(c),
{
    if 'A' <= c && c <= 'Z' {
        c as u32 + 32
    } else {
        c as u32
    }
}

/// What one line of the daemon's configuration says of the setting.
pub fn line_status(line: &[char]) -> (r: Option<DeviceIdStatus>)
    ensures
        line_says(line@, r),
{
    let key: [char; 8] = ['D', 'e', 'v', 'i', 'c', 'e', 'I', 'D'];
    let expected: [char; 24] = [
        'b', 'l', 'u', 'e', 't', 'o', 'o', 't', 'h', ':', '0', '0', '4', 'C', ':', '0', '0', '0', '0', ':', '0', '0', '0', '0',
    ];
    assert(key@ =~= device_id_key());
    assert(expected@ =~= apple_device_id());
    let ghost l = line@;
    let (a, b) = trim_bounds(line, 0, line.len());
    assert(l.subrange(0, l.len() as int) =~= l);
    let ghost t = l.subrange(a as int, b as int);
    assert(t == trim(l));
    if b - a < 8 {
        return None;
    }
    let mut k: usize = 0;
    while k < 8
        invariant
            k <= 8,
            a + 8 <= b <= l.len(),
            l == line@,
            key@ == device_id_key(),
            t == l.subrange(a as int, b as int),
            t == trim(l),
            forall|m: int| 0 <= m < k ==> t[m] == key@[m],
        decreases 8 - k,
    {
        if line[a + k] != key[k] {
            assert(t[k as int] == line@[a + k]);
            assert(t.subrange(0, 8)[k as int] != device_id_key()[k as int]);
            assert(t.subrange(0, 8) != device_id_key());
            assert(trim(line@) == t);
            return None;
        }
        assert(t[k as int] == line@[a + k]);
        k = k + 1;
    }
    assert(t.subrange(0, 8) =~= device_id_key());
    let p = find_char(line, '=', a, a, b);
    if p == b {
        return None;
    }
    let q = find_char(line, '=', a, p + 1, b);
    let (va, vb) = trim_bounds(line, p + 1, q);
    assert(l.subrange(p + 1, q as int) =~= t.subrange(p + 1 - a, q - a));
    let ghost v = l.subrange(va as int, vb as int);
    assert(v == setting_value(t));
    if vb - va == 24 {
        let mut m: usize = 0;
        let mut same = true;
        while m < 24
            invariant
                m <= 24,
                va + 24 == vb <= l.len(),
                l == line@,
                v == l.subrange(va as int, vb as int),
                expected@ == apple_device_id(),
                same == forall|n: int| 0 <= n < m ==> ascii_lower(#[trigger] v[n]) == ascii_lower(expected@[n]),
            decreases 24 - m,
        {
            assert(v[m as int] == line@[va + m]);
            if ascii_lower_exec(line[va + m]) != ascii_lower_exec(expected[m]) {
                same = false;
            }
            m = m + 1;
        }
        if same {
            return Some(DeviceIdStatus::Configured);
        }
    }
    let mut value = String::new();
    let mut i: usize = va;
    while i < vb
        invariant
            va <= i <= vb <= l.len(),
            l == line@,
            value@ == l.subrange(va as int, i as int),
        decreases vb - i,
    {
        push_char(&mut value, line[i]);
        i = i + 1;
        assert(l.subrange(va as int, i as int) =~= l.subrange(va as int, i - 1).push(l[i - 1]));
    }
    Some(DeviceIdStatus::WrongValue(value))
}

/// The lines of a configuration file as character sequences.
pub open spec fn lines_view(lines: Seq<Vec<char>>) -> Seq<Seq<char>> {
    lines.map_values(|l: Vec<char>| l@)
}

/// The setting's status in a configuration file given as its lines: what
/// the first line that sets the key says, or `NotConfigured` if none does.
pub fn device_id_status(lines: &Vec<Vec<char>>) -> (r: DeviceIdStatus)
    ensures
        ({
            let ls = lines_view(lines@);
            let i = first_setting(ls, 0);
            if i < ls.len() {
                line_says(ls[i], Some(r))
            } else {
                r is NotConfigured
            }
        }),
{
    let ghost ls = lines_view(lines@);
    let mut i: usize = 0;
    while i < lines.len()
        invariant
            i <= lines@.len(),
            ls == lines_view(lines@),
            first_setting(ls, 0) == first_setting(ls, i as int),
        decreases lines@.len() - i,
    {
        let status = line_status(lines[i].as_slice());
        assert(ls[i as int] == lines@[i as int]@);
        match status {
            Some(st) => {
                return st;
            },
            None => {},
        }
        i = i + 1;
    }
    DeviceIdStatus::NotConfigured
}

impl DeviceIdStatus {
    /// A human-readable description of the status.
    pub fn describe(&self) -> (r: String)
        ensures
            r@ == match self {
                DeviceIdStatus::Configured => "Configured"@,
                DeviceIdStatus::NotConfigured => "Not configured"@,
                DeviceIdStatus::WrongValue(v) => "Wrong value: "@ + v@,
                DeviceIdStatus::FileNotFound => "Config file not found"@,
                DeviceIdStatus::ParseError(e) => "Error: "@ + e@,
            },
    {
        match self {
            DeviceIdStatus::Configured => String::from_str("Configured"),
            DeviceIdStatus::NotConfigured => String::from_str("Not configured"),
            DeviceIdStatus::WrongValue(v) => String::from_str("Wrong value: ").concat(v.as_str()),
            DeviceIdStatus::FileNotFound => String::from_str("Config file not found"),
            DeviceIdStatus::ParseError(e) => String::from_str("Error: ").concat(e.as_str()),
        }
    }
}

} // verus!
