//! Kernel boot information and its command line
use vstd::prelude::*;
use core::ops::Range;
use crate::addr::phys_addr::PhysAddr;

verus! {

/// The characters with the Unicode `White_Space` property, on which the
/// command line splits its arguments
pub open spec fn is_whitespace(c: char) -> bool {
    let v = c as u32;
    ||| 0x9 <= v <= 0xD
    ||| v == 0x20
    ||| v == 0x85
    ||| v == 0xA0
    ||| v == 0x1680
    ||| 0x2000 <= v <= 0x200A
    ||| v == 0x2028
    ||| v == 0x2029
    ||| v == 0x202F
    ||| v == 0x205F
    ||| v == 0x3000
}

/// Tells whether `c` is a whitespace
pub fn char_is_whitespace(c: char) -> (r: bool)
    ensures
        r == is_whitespace(c),
{
    let v = c as u32;
    (0x9 <= v && v <= 0xD) || v == 0x20 || v == 0x85 || v == 0xA0 || v == 0x1680 || (0x2000 <= v
        && v <= 0x200A) || v == 0x2028 || v == 0x2029 || v == 0x202F || v == 0x205F || v == 0x3000
}

/// `s[i..j]` is a word: a maximal run of characters that are not whitespace
pub open spec fn is_word(s: Seq<char>, i: int, j: int) -> bool {
    &&& 0 <= i < j <= s.len()
    &&& forall|k: int| i <= k < j ==> !is_whitespace(#[trigger] s[k])
    &&& (i == 0 || is_whitespace(s[i - 1]))
    &&& (j == s.len() || is_whitespace(s[j]))
}

/// `key` occurs in `s` at position `p`
pub open spec fn occurs_at(s: Seq<char>, p: int, key: Seq<char>) -> bool {
    0 <= p && p + key.len() <= s.len() && s.subrange(p, p + key.len()) == key
}

/// The word `s[i..j]` contains `key`
pub open spec fn word_has_key(s: Seq<char>, i: int, j: int, key: Seq<char>) -> bool {
    &&& is_word(s, i, j)
    &&& exists|p: int| i <= p && p + key.len() <= j && #[trigger] occurs_at(s, p, key)
}

/// Some word of `s` contains `key`
pub open spec fn arg_exists(s: Seq<char>, key: Seq<char>) -> bool {
    exists|i: int, j: int| #[trigger] word_has_key(s, i, j, key)
}

/// `s[i..j]` is the first word of `s` that contains `key`
pub open spec fn is_first_arg(s: Seq<char>, key: Seq<char>, i: int, j: int) -> bool {
    &&& word_has_key(s, i, j, key)
    &&& forall|i2: int, j2: int| #[trigger] word_has_key(s, i2, j2, key) ==> i <= i2
}

/// `e` is the first `=` of `s` from `i` on
pub open spec fn is_first_eq_sign(s: Seq<char>, i: int, e: int) -> bool {
    &&& i <= e < s.len()
    &&& s[e] == '='
    &&& forall|k: int| i <= k < e ==> #[trigger] s[k] != '='
}

/// The word `s[i..j]` split at its first `=`: the key and, when there is an
/// `=`, the value after it
pub open spec fn spec_split_arg(s: Seq<char>, i: int, j: int) -> (Seq<char>, Option<Seq<char>>) {
    if exists|e: int| i <= e < j && is_first_eq_sign(s, i, e) {
        let e = choose|e: int| i <= e < j && is_first_eq_sign(s, i, e);
        (s.subrange(i, e), Some(s.subrange(e + 1, j)))
    } else {
        (s.subrange(i, j), None)
    }
}

/// The first argument of the command line `s` that contains `key`, split at
/// its first `=`
pub open spec fn spec_find_arg(s: Seq<char>, key: Seq<char>) -> Option<(Seq<char>, Option<Seq<char>>)> {
    if arg_exists(s, key) {
        let (i, j) = choose|i: int, j: int| is_first_arg(s, key, i, j);
        Some(spec_split_arg(s, i, j))
    } else {
        None
    }
}

/// A word ends at one place only
proof fn lemma_word_end_unique(s: Seq<char>, i: int, j1: int, j2: int)
    requires
        is_word(s, i, j1),
        is_word(s, i, j2),
    ensures
        j1 == j2,
{
    if j1 < j2 {
        assert(!is_whitespace(s[j1]));
    } else if j2 < j1 {
        assert(!is_whitespace(s[j2]));
    }
}

/// Returns the characters of `s`
pub fn chars_of(s: &str) -> (r: Vec<char>)
    ensures
        r@ == s@,
{
    let mut r: Vec<char> = Vec::new();
    for c in it: s.chars()
        invariant
            r@ == it.seq().take(it.index()),
    {
        r.push(c);
    }
    r
}

/// Returns `s[from..to]`
fn copy_range(s: &Vec<char>, from: usize, to: usize) -> (r: Vec<char>)
    requires
        from <= to <= s.len(),
    ensures
        r@ == s@.subrange(from as int, to as int),
{
    let mut r: Vec<char> = Vec::new();
    let mut k = from;
    while k < to
        invariant
            from <= k <= to <= s.len(),
            r@ == s@.subrange(from as int, k as int),
        decreases to - k,
    {
        r.push(s[k]);
        k = k + 1;
    }
    r
}

/// Tells whether `key` occurs in `s` at `p`
fn occurs_at_exec(s: &Vec<char>, p: usize, key: &Vec<char>) -> (r: bool)
    requires
        p + key.len() <= s.len(),
    ensures
        r == occurs_at(s@, p as int, key@),
{
    let m = key.len();
    let mut t: usize = 0;
    while t < m
        invariant
            m == key.len(),
            p + m <= s.len(),
            t <= m,
            forall|u: int| 0 <= u < t ==> s@[p + u] == key@[u],
        decreases m - t,
    {
        if s[p + t] != key[t] {
            assert(s@.subrange(p as int, p + m)[t as int] != key@[t as int]);
            return false;
        }
        t = t + 1;
    }
    assert(s@.subrange(p as int, p + m) =~= key@);
    true
}

/// Tells whether the word `s[i..j]` contains `key`
fn word_contains(s: &Vec<char>, i: usize, j: usize, key: &Vec<char>) -> (r: bool)
    requires
        i <= j <= s.len(),
    ensures
        r == exists|p: int| i <= p && p + key.len() <= j && #[trigger] occurs_at(s@, p, key@),
{
    let m = key.len();
    if j - i < m {
        return false;
    }
    let last = j - m;
    let mut p = i;
    while p <= last
        invariant
            m == key.len(),
            last == j - m,
            i <= p <= last + 1,
            j <= s.len(),
            i + m <= j,
            forall|q: int| i <= q < p ==> !#[trigger] occurs_at(s@, q, key@),
        decreases last + 1 - p,
    {
        if occurs_at_exec(s, p, key) {
            return true;
        }
        if p == last {
            return false;
        }
        p = p + 1;
    }
    false
}

/// Returns the bounds of the first word of `s` that contains `key`
fn find_arg_bounds(s: &Vec<char>, key: &Vec<char>) -> (r: Option<(usize, usize)>)
    ensures
        match r {
            Some((i, j)) => is_first_arg(s@, key@, i as int, j as int),
            None => !arg_exists(s@, key@),
        },
{
    let n = s.len();
    let mut p: usize = 0;
    while p < n
        invariant
            n == s@.len(),
            p <= n,
            p == 0 || is_whitespace(s@[p - 1]),
            forall|i2: int, j2: int| #[trigger] word_has_key(s@, i2, j2, key@) ==> p <= i2,
        decreases n - p,
    {
        if char_is_whitespace(s[p]) {
            proof {
                assert forall|i2: int, j2: int| #[trigger] word_has_key(s@, i2, j2, key@) implies p
                    + 1 <= i2 by {
                    if i2 == p {
                        assert(!is_whitespace(s@[i2]));
                    }
                }
            }
            p = p + 1;
        } else {
            let mut q = p;
            while q < n && !char_is_whitespace(s[q])
                invariant
                    n == s@.len(),
                    p <= q <= n,
                    forall|k: int| p <= k < q ==> !is_whitespace(#[trigger] s@[k]),
                decreases n - q,
            {
                q = q + 1;
            }
            assert(is_word(s@, p as int, q as int));
            if word_contains(s, p, q, key) {
                assert(word_has_key(s@, p as int, q as int, key@));
                return Some((p, q));
            }
            proof {
                assert forall|i2: int, j2: int| #[trigger] word_has_key(s@, i2, j2, key@) implies q
                    + 1 <= i2 by {
                    if i2 == p {
                        lemma_word_end_unique(s@, p as int, q as int, j2);
                    } else if p < i2 <= q {
                        if i2 < q {
                            assert(!is_whitespace(s@[i2 - 1]));
                        } else {
                            assert(!is_whitespace(s@[q - 1]));
                            if q < n {
                                assert(is_whitespace(s@[q as int]));
                            }
                        }
                    }
                }
            }
            if q == n {
                return None;
            }
            p = q + 1;
        }
    }
    None
}

/// The first `=` is one place only
proof fn lemma_first_eq_sign_unique(s: Seq<char>, i: int, e1: int, e2: int)
    requires
        is_first_eq_sign(s, i, e1),
        is_first_eq_sign(s, i, e2),
    ensures
        e1 == e2,
{
    if e1 < e2 {
        assert(s[e1] != '=');
    } else if e2 < e1 {
        assert(s[e2] != '=');
    }
}

/// The first argument is one only
proof fn lemma_first_arg_unique(s: Seq<char>, key: Seq<char>, i1: int, j1: int, i2: int, j2: int)
    requires
        is_first_arg(s, key, i1, j1),
        is_first_arg(s, key, i2, j2),
    ensures
        i1 == i2 && j1 == j2,
{
    assert(i1 <= i2);
    assert(i2 <= i1);
    lemma_word_end_unique(s, i1, j1, j2);
}

/// Returns the position of the first `=` of `s[i..j]`
fn find_eq_sign(s: &Vec<char>, i: usize, j: usize) -> (r: Option<usize>)
    requires
        i <= j <= s.len(),
    ensures
        match r {
            Some(e) => e < j && is_first_eq_sign(s@, i as int, e as int),
            None => forall|k: int| i <= k < j ==> #[trigger] s@[k] != '=',
        },
{
    let mut e = i;
    while e < j
        invariant
            i <= e <= j <= s.len(),
            forall|k: int| i <= k < e ==> #[trigger] s@[k] != '=',
        decreases j - e,
    {
        if s[e] == '=' {
            return Some(e);
        }
        e = e + 1;
    }
    None
}

/// The key and the value of an argument as sequences of characters
pub open spec fn arg_view(arg: (Vec<char>, Option<Vec<char>>)) -> (Seq<char>, Option<Seq<char>>) {
    (
        arg.0@,
        match arg.1 {
            Some(v) => Some(v@),
            None => None,
        },
    )
}

/// Splits the word `s[i..j]` at its first `=`
fn split_arg(s: &Vec<char>, i: usize, j: usize) -> (r: (Vec<char>, Option<Vec<char>>))
    requires
        i <= j <= s.len(),
    ensures
        arg_view(r) == spec_split_arg(s@, i as int, j as int),
{
    match find_eq_sign(s, i, j) {
        Some(e) => {
            proof {
                let c = choose|c: int| i <= c < j && is_first_eq_sign(s@, i as int, c);
                lemma_first_eq_sign_unique(s@, i as int, e as int, c);
            }
            (copy_range(s, i, e), Some(copy_range(s, e + 1, j)))
        },
        None => {
            proof {
                assert(!exists|c: int| i <= c < j && is_first_eq_sign(s@, i as int, c));
            }
            (copy_range(s, i, j), None)
        },
    }
}

/// Tells whether an argument of the command line `cmdline` contains `key`
pub fn arg_exists_in(cmdline: &str, key: &str) -> (r: bool)
    ensures
        r == arg_exists(cmdline@, key@),
{
    let s = chars_of(cmdline);
    let k = chars_of(key);
    find_arg_bounds(&s, &k).is_some()
}

/// Returns the first argument of the command line `cmdline` that contains
/// `key`, split into the part before its first `=` and, when there is an
/// `=`, the part after it
pub fn find_arg_in(cmdline: &str, key: &str) -> (r: Option<(Vec<char>, Option<Vec<char>>)>)
    ensures
        match r {
            Some(arg) => spec_find_arg(cmdline@, key@) == Some(arg_view(arg)),
            None => spec_find_arg(cmdline@, key@) is None,
        },
{
    let s = chars_of(cmdline);
    let k = chars_of(key);
    match find_arg_bounds(&s, &k) {
        Some((i, j)) => {
            proof {
                let (i2, j2) = choose|i2: int, j2: int| is_first_arg(s@, k@, i2, j2);
                lemma_first_arg_unique(s@, k@, i as int, j as int, i2, j2);
            }
            Some(split_arg(&s, i, j))
        },
        None => None,
    }
}

/// `c` is a decimal digit
pub open spec fn is_digit(c: char) -> bool {
    '0' as u32 <= c as u32 <= '9' as u32
}

/// The number that the decimal digits `d` write
pub open spec fn digits_value(d: Seq<char>) -> nat
    decreases d.len(),
{
    if d.len() == 0 {
        0
    } else {
        digits_value(d.drop_last()) * 10 + (d.last() as u32 - '0' as u32) as nat
    }
}

/// The digits of a textual unsigned integer, after its optional `+` sign
pub open spec fn unsigned_digits(v: Seq<char>) -> Seq<char> {
    if v.len() > 0 && v[0] == '+' {
        v.drop_first()
    } else {
        v
    }
}

/// `v` is a valid textual `usize`: an optional `+` and at least one decimal
/// digit, with a value that fits
pub open spec fn parses_usize(v: Seq<char>) -> bool {
    let d = unsigned_digits(v);
    &&& d.len() > 0
    &&& forall|k: int| 0 <= k < d.len() ==> is_digit(#[trigger] d[k])
    &&& digits_value(d) <= usize::MAX
}

/// A prefix of digits is worth no more than the digits
proof fn lemma_digits_prefix(d: Seq<char>, k: int)
    requires
        0 <= k <= d.len(),
        forall|t: int| 0 <= t < d.len() ==> is_digit(#[trigger] d[t]),
    ensures
        digits_value(d.take(k)) <= digits_value(d),
    decreases d.len(),
{
    if k == d.len() {
        assert(d.take(k) =~= d);
    } else {
        let dl = d.drop_last();
        assert(dl.take(k) =~= d.take(k));
        lemma_digits_prefix(dl, k);
    }
}

/// Parses the textual `usize` `v`
pub fn parse_usize(v: &Vec<char>) -> (r: usize)
    requires
        parses_usize(v@),
    ensures
        r == digits_value(unsigned_digits(v@)),
{
    let n = v.len();
    let start: usize = if n > 0 && v[0] == '+' { 1 } else { 0 };
    let ghost d = unsigned_digits(v@);
    assert(d =~= v@.subrange(start as int, n as int));
    let mut acc: usize = 0;
    let mut k = start;
    while k < n
        invariant
            n == v@.len(),
            start <= k <= n,
            d == v@.subrange(start as int, n as int),
            parses_usize(v@),
            d == unsigned_digits(v@),
            acc == digits_value(d.take(k - start)),
        decreases n - k,
    {
        let ghost t = k - start;
        proof {
            lemma_digits_prefix(d, t + 1);
            assert(d.take(t + 1).drop_last() =~= d.take(t));
            assert(d[t] == v@[k as int]);
            assert(is_digit(d[t]));
        }
        let digit = (v[k] as u32 - '0' as u32) as usize;
        acc = acc * 10 + digit;
        k = k + 1;
    }
    assert(d.take(n - start) =~= d);
    acc
}

/// The first argument that contains the key is found exactly when some
/// argument contains it, and it is one word of the command line, made of its
/// key part, and of an `=` and its value when it has a value; the key part
/// holds no `=`
pub proof fn lemma_find_arg_is_a_word(s: Seq<char>, key: Seq<char>)
    ensures
        spec_find_arg(s, key) is Some <==> arg_exists(s, key),
        spec_find_arg(s, key) matches Some((k, v)) ==> {
            &&& exists|i: int, j: int|
                is_word(s, i, j) && #[trigger] s.subrange(i, j) == match v {
                    Some(value) => k + seq!['='] + value,
                    None => k,
                }
            &&& forall|t: int| 0 <= t < k.len() ==> #[trigger] k[t] != '='
        },
{
    if arg_exists(s, key) {
        let (i, j) = choose|i: int, j: int| is_first_arg(s, key, i, j);
        assert(is_first_arg(s, key, i, j)) by {
            let (i0, j0) = choose|i0: int, j0: int| #[trigger] word_has_key(s, i0, j0, key);
            lemma_first_arg_exists(s, key, i0, j0);
        }
        let (k, v) = spec_split_arg(s, i, j);
        if exists|e: int| i <= e < j && is_first_eq_sign(s, i, e) {
            let e = choose|e: int| i <= e < j && is_first_eq_sign(s, i, e);
            assert(s.subrange(i, j) =~= s.subrange(i, e) + seq!['='] + s.subrange(e + 1, j));
            assert forall|t: int| 0 <= t < k.len() implies #[trigger] k[t] != '=' by {
                assert(k[t] == s[i + t]);
            }
        } else {
            assert forall|t: int| 0 <= t < k.len() implies #[trigger] k[t] != '=' by {
                assert(k[t] == s[i + t]);
                if s[i + t] == '=' {
                    lemma_first_eq_sign_exists(s, i, i + t);
                }
            }
        }
        assert(is_word(s, i, j));
    }
}

/// An `=` at `e` gives a first `=` at or before it
proof fn lemma_first_eq_sign_exists(s: Seq<char>, i: int, e: int)
    requires
        i <= e < s.len(),
        s[e] == '=',
    ensures
        exists|f: int| i <= f <= e && is_first_eq_sign(s, i, f),
    decreases e - i,
{
    if exists|k: int| i <= k < e && s[k] == '=' {
        let k = choose|k: int| i <= k < e && s[k] == '=';
        lemma_first_eq_sign_exists(s, i, k);
    } else {
        assert(is_first_eq_sign(s, i, e));
    }
}

/// A word that contains the key gives a first one
proof fn lemma_first_arg_exists(s: Seq<char>, key: Seq<char>, i: int, j: int)
    requires
        word_has_key(s, i, j, key),
    ensures
        exists|i2: int, j2: int| is_first_arg(s, key, i2, j2),
    decreases i,
{
    if exists|i2: int, j2: int| #[trigger] word_has_key(s, i2, j2, key) && i2 < i {
        let (i2, j2) = choose|i2: int, j2: int| #[trigger] word_has_key(s, i2, j2, key) && i2 < i;
        lemma_first_arg_exists(s, key, i2, j2);
    } else {
        assert(is_first_arg(s, key, i, j));
    }
}

/// The key of an argument and its value as an integer
pub open spec fn int_arg_view(arg: (Vec<char>, Option<usize>)) -> (Seq<char>, Option<nat>) {
    (
        arg.0@,
        match arg.1 {
            Some(v) => Some(v as nat),
            None => None,
        },
    )
}

/// The argument that `spec_find_arg` finds, with its value as an integer
pub open spec fn spec_find_arg_int(s: Seq<char>, key: Seq<char>) -> Option<(Seq<char>, Option<nat>)> {
    match spec_find_arg(s, key) {
        Some((k, Some(v))) => Some((k, Some(digits_value(unsigned_digits(v))))),
        Some((k, None)) => Some((k, None)),
        None => None,
    }
}

/// The value of the argument that `spec_find_arg` finds, if any, is a valid
/// textual `usize`
pub open spec fn int_arg_is_valid(s: Seq<char>, key: Seq<char>) -> bool {
    spec_find_arg(s, key) matches Some((_, Some(v))) ==> parses_usize(v)
}

/// Bootloader and architecture independent information for the kernel boot
pub struct BootInfo {
    pub m_boot_loader_name: String,
    pub m_cmd_line_args_buf: String,
    pub m_boot_mem_areas: Vec<Range<PhysAddr>>,
}

impl BootInfo {
    /// Constructs the `BootInfo` from its parts
    pub fn new(
        boot_loader_name: String,
        cmd_line_args: String,
        boot_mem_areas: Vec<Range<PhysAddr>>,
    ) -> (r: Self)
        ensures
            r.m_boot_loader_name@ == boot_loader_name@,
            r.m_cmd_line_args_buf@ == cmd_line_args@,
            r.m_boot_mem_areas@ == boot_mem_areas@,
    {
        Self {
            m_boot_loader_name: boot_loader_name,
            m_cmd_line_args_buf: cmd_line_args,
            m_boot_mem_areas: boot_mem_areas,
        }
    }

    /// Constructs the `BootInfo` from the information that the bootloader
    /// gave
    pub fn from_hw(hw_boot_info: &HwBootInfo) -> (r: Self)
        requires
            hw_boot_info.mem_areas_fit(),
        ensures
            r.m_boot_loader_name@ == hw_boot_info.spec_boot_loader_name(),
            r.m_cmd_line_args_buf@ == hw_boot_info.spec_cmd_line_args(),
            ranges_view(r.m_boot_mem_areas@) == spec_phys_ranges(hw_boot_info.m_mem_areas->0@),
    {
        Self::new(
            hw_boot_info.boot_loader_name().to_owned(),
            hw_boot_info.cmd_line_args().to_owned(),
            hw_boot_info.phys_mem_ranges(),
        )
    }

    /// Returns whether an argument of the command line contains
    /// `key_to_search`
    pub fn cmd_line_arg_exists(&self, key_to_search: &str) -> (r: bool)
        ensures
            r == arg_exists(self.m_cmd_line_args_buf@, key_to_search@),
    {
        arg_exists_in(self.m_cmd_line_args_buf.as_str(), key_to_search)
    }

    /// Returns the first argument of the command line that contains
    /// `key_to_search`: the part before its first `=` and, if any, the part
    /// after it
    pub fn cmd_line_find_arg(&self, key_to_search: &str) -> (r: Option<(Vec<char>, Option<Vec<char>>)>)
        ensures
            match r {
                Some(arg) => spec_find_arg(self.m_cmd_line_args_buf@, key_to_search@) == Some(
                    arg_view(arg),
                ),
                None => spec_find_arg(self.m_cmd_line_args_buf@, key_to_search@) is None,
            },
    {
        find_arg_in(self.m_cmd_line_args_buf.as_str(), key_to_search)
    }

    /// Returns the first argument of the command line that contains
    /// `key_to_search`, with the part after its first `=`, if any, as an
    /// integer
    pub fn cmd_line_find_arg_int(&self, key_to_search: &str) -> (r: Option<(Vec<char>, Option<usize>)>)
        requires
            int_arg_is_valid(self.m_cmd_line_args_buf@, key_to_search@),
        ensures
            match r {
                Some(arg) => spec_find_arg_int(self.m_cmd_line_args_buf@, key_to_search@) == Some(
                    int_arg_view(arg),
                ),
                None => spec_find_arg_int(self.m_cmd_line_args_buf@, key_to_search@) is None,
            },
    {
        match self.cmd_line_find_arg(key_to_search) {
            Some((key, value_opt)) => {
                let int_value = match value_opt {
                    Some(str_value) => Some(parse_usize(&str_value)),
                    None => None,
                };
                Some((key, int_value))
            },
            None => None,
        }
    }

    /// Returns the name of the bootloader that started the kernel
    pub fn boot_loader_name(&self) -> (r: &String)
        ensures
            r@ == self.m_boot_loader_name@,
    {
        &self.m_boot_loader_name
    }

    /// Returns the command line that the bootloader gave
    pub fn cmd_line_args(&self) -> (r: &String)
        ensures
            r@ == self.m_cmd_line_args_buf@,
    {
        &self.m_cmd_line_args_buf
    }

    /// Returns the physical memory areas
    pub fn boot_mem_areas(&self) -> (r: &Vec<Range<PhysAddr>>)
        ensures
            r@ == self.m_boot_mem_areas@,
    {
        &self.m_boot_mem_areas
    }
}

/// One MiB: the memory below it holds the BIOS
pub const C_MIB: u64 = 0x10_0000;

/// Size of the physical address space
pub const PHYS_SPAN: u64 = 0x10_0000_0000_0000;

/// A memory area of the bootloader's memory map
#[derive(Clone, Copy, PartialEq, Eq, Structural, Debug)]
pub struct MemMapArea {
    pub m_start_address: u64,
    pub m_size: u64,
}

/// The information that the bootloader gave, as plain values
pub struct HwBootInfo {
    pub m_boot_loader_name: Option<String>,
    pub m_cmd_line: Option<String>,
    pub m_mem_areas: Option<Vec<MemMapArea>>,
}

/// Where a range of `size` bytes from the physical address `start` ends
pub open spec fn range_end(start: int, size: u64) -> int {
    if size > 0 {
        (start + size) % (PHYS_SPAN as int)
    } else {
        start
    }
}

/// The area is kept: it does not lie below one MiB
pub open spec fn area_is_kept(area: MemMapArea) -> bool {
    let start = area.m_start_address % PHYS_SPAN;
    !(start < C_MIB && range_end(start as int, area.m_size) < C_MIB)
}

/// The physical ranges of the kept areas, in the bootloader's order, as
/// pairs of first and end address
pub open spec fn spec_phys_ranges(areas: Seq<MemMapArea>) -> Seq<(int, int)>
    decreases areas.len(),
{
    if areas.len() == 0 {
        Seq::empty()
    } else {
        let prev = spec_phys_ranges(areas.drop_last());
        let area = areas.last();
        if area_is_kept(area) {
            let start = (area.m_start_address % PHYS_SPAN) as int;
            prev.push((start, range_end(start, area.m_size)))
        } else {
            prev
        }
    }
}

/// The ranges as pairs of first and end address
pub open spec fn ranges_view(ranges: Seq<Range<PhysAddr>>) -> Seq<(int, int)> {
    ranges.map_values(|r: Range<PhysAddr>| (r.start@ as int, r.end@ as int))
}

impl HwBootInfo {
    /// The bootloader's name, a generic one when it gave none
    pub open spec fn spec_boot_loader_name(&self) -> Seq<char> {
        match self.m_boot_loader_name {
            Some(name) => name@,
            None => "Multiboot based bootloader"@,
        }
    }

    /// The command line, empty when the bootloader gave none
    pub open spec fn spec_cmd_line_args(&self) -> Seq<char> {
        match self.m_cmd_line {
            Some(cmd_line) => cmd_line@,
            None => Seq::empty(),
        }
    }

    /// The bootloader gave a memory map, whose areas end inside the machine
    /// word
    pub open spec fn mem_areas_fit(&self) -> bool {
        &&& self.m_mem_areas is Some
        &&& forall|k: int|
            0 <= k < self.m_mem_areas->0@.len() ==> (#[trigger] self.m_mem_areas->0@[k]).m_start_address
                % PHYS_SPAN + self.m_mem_areas->0@[k].m_size <= u64::MAX
    }

    /// Returns the bootloader's name
    pub fn boot_loader_name(&self) -> (r: &str)
        ensures
            r@ == self.spec_boot_loader_name(),
    {
        match &self.m_boot_loader_name {
            Some(name) => name.as_str(),
            None => "Multiboot based bootloader",
        }
    }

    /// Returns the command line
    pub fn cmd_line_args(&self) -> (r: &str)
        ensures
            r@ == self.spec_cmd_line_args(),
    {
        match &self.m_cmd_line {
            Some(cmd_line) => cmd_line.as_str(),
            None => {
                proof {
                    reveal_strlit("");
                }
                ""
            },
        }
    }

    /// Returns the physical ranges of the memory areas, without those that
    /// lie below one MiB
    pub fn phys_mem_ranges(&self) -> (r: Vec<Range<PhysAddr>>)
        requires
            self.mem_areas_fit(),
        ensures
            ranges_view(r@) == spec_phys_ranges(self.m_mem_areas->0@),
    {
        let areas = match &self.m_mem_areas {
            Some(areas) => areas,
            None => {
                return Vec::new();
            },
        };
        let mut ranges: Vec<Range<PhysAddr>> = Vec::new();
        let n = areas.len();
        let mut k: usize = 0;
        let mib = PhysAddr::from(C_MIB);
        while k < n
            invariant
                n == areas@.len(),
                k <= n,
                mib@ == C_MIB,
                forall|t: int|
                    0 <= t < areas@.len() ==> (#[trigger] areas@[t]).m_start_address % PHYS_SPAN
                        + areas@[t].m_size <= u64::MAX,
                ranges_view(ranges@) == spec_phys_ranges(areas@.take(k as int)),
            decreases n - k,
        {
            let area = areas[k];
            proof {
                assert(areas@.take(k + 1).drop_last() =~= areas@.take(k as int));
                assert(areas@[k as int] == area);
            }
            let start_phys_addr = PhysAddr::from(area.m_start_address);
            let phys_area_size = area.m_size;
            if start_phys_addr.deref() < mib.deref() && start_phys_addr.offset(phys_area_size).deref()
                < mib.deref() {
                /* the memory below one MiB holds the BIOS */
            } else {
                let range = start_phys_addr.to_range(phys_area_size);
                let ghost prev = ranges@;
                ranges.push(range);
                proof {
                    assert(ranges_view(ranges@) =~= ranges_view(prev).push(
                        (range.start@ as int, range.end@ as int),
                    ));
                }
            }
            k = k + 1;
        }
        proof {
            assert(areas@.take(n as int) =~= areas@);
        }
        ranges
    }
}

} // verus!
