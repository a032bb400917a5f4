//! Memory figures read out of the text that the platform's statistics tools
//! print (`vm_stat` and `sysctl hw.memsize`).
use vstd::prelude::*;
use vstd::string::StringSliceAdditionalSpecFns;

verus! {

/// The output of a statistics tool could not be read as expected.
#[derive(PartialEq, Eq, Structural, Clone, Copy, Debug)]
pub enum PlatformQueryError {
    /// A field that should hold a number does not.
    Malformed,
    /// A number, or the product of the figures, does not fit in `usize`.
    Overflow,
}

/// The three figures that `vm_stat` reports and that available memory is made of.
#[derive(PartialEq, Eq, Structural, Clone, Copy, Debug)]
pub struct VmStatCounts {
    pub free_pages: usize,
    pub inactive_pages: usize,
    pub page_size: usize,
}

pub open spec fn is_space(c: u8) -> bool {
    c == 32 || c == 9 || c == 10 || c == 11 || c == 12 || c == 13
}

pub open spec fn is_digit(c: u8) -> bool {
    48 <= c <= 57
}

/// The first index at or after `i` that holds a newline, or the length.
pub open spec fn line_end(b: Seq<u8>, i: int) -> int
    decreases b.len() - i,
{
    if i >= b.len() {
        b.len() as int
    } else if b[i] == 10 {
        i
    } else {
        line_end(b, i + 1)
    }
}

/// How many bytes the white-space character that starts at `b[i]` takes,
/// within `hi`, or zero when none starts there: the UTF-8 encodings of the
/// characters of Unicode's `White_Space` property.
pub open spec fn space_len(b: Seq<u8>, i: int, hi: int) -> int {
    if !(0 <= i < hi) {
        0
    } else if is_space(b[i]) {
        1
    } else if i + 1 < hi && b[i] == 0xc2 && (b[i + 1] == 0x85 || b[i + 1] == 0xa0) {
        2
    } else if i + 2 < hi && b[i] == 0xe1 && b[i + 1] == 0x9a && b[i + 2] == 0x80 {
        3
    } else if i + 2 < hi && b[i] == 0xe2 && b[i + 1] == 0x80 && ((0x80 <= b[i + 2] <= 0x8a)
        || b[i + 2] == 0xa8 || b[i + 2] == 0xa9 || b[i + 2] == 0xaf) {
        3
    } else if i + 2 < hi && b[i] == 0xe2 && b[i + 1] == 0x81 && b[i + 2] == 0x9f {
        3
    } else if i + 2 < hi && b[i] == 0xe3 && b[i + 1] == 0x80 && b[i + 2] == 0x80 {
        3
    } else {
        0
    }
}

/// Where `b[lo..hi]` starts once leading white space is skipped.
pub open spec fn skip_spaces(b: Seq<u8>, lo: int, hi: int) -> int
    decreases hi - lo,
{
    if space_len(b, lo, hi) > 0 {
        skip_spaces(b, lo + space_len(b, lo, hi), hi)
    } else {
        lo
    }
}

/// Where `b[lo..hi]` ends once trailing dots are dropped.
pub open spec fn trim_dots_end(b: Seq<u8>, lo: int, hi: int) -> int
    decreases hi - lo,
{
    if lo < hi && b[hi - 1] == 46 {
        trim_dots_end(b, lo, hi - 1)
    } else {
        hi
    }
}

pub open spec fn all_digits(b: Seq<u8>, lo: int, hi: int) -> bool {
    forall|k: int| lo <= k < hi ==> is_digit(#[trigger] b[k])
}

/// The decimal value of the digits `b[lo..hi]`.
pub open spec fn digits_value(b: Seq<u8>, lo: int, hi: int) -> nat
    decreases hi - lo,
{
    if hi <= lo {
        0
    } else {
        digits_value(b, lo, hi - 1) * 10 + (b[hi - 1] - 48) as nat
    }
}

/// The number that `b[lo..hi]` spells exactly, when it is an optional `+`
/// and then a non-empty run of digits whose value fits in `usize`.
pub open spec fn number_in(b: Seq<u8>, lo: int, hi: int) -> Option<usize> {
    if lo < hi && b[lo] == 43 {
        digits_in(b, lo + 1, hi)
    } else {
        digits_in(b, lo, hi)
    }
}

/// The number that the digits `b[lo..hi]` spell, when there is at least one
/// and its value fits in `usize`.
pub open spec fn digits_in(b: Seq<u8>, lo: int, hi: int) -> Option<usize> {
    if lo < hi && all_digits(b, lo, hi) && digits_value(b, lo, hi) <= usize::MAX {
        Some(digits_value(b, lo, hi) as usize)
    } else {
        None
    }
}

/// Available memory in bytes: free and inactive pages, times the page size.
pub open spec fn available_bytes(c: VmStatCounts) -> nat {
    ((c.free_pages + c.inactive_pages) * c.page_size) as nat
}

/// True when `b[lo..hi]` starts with `p`.
pub open spec fn has_prefix_at(b: Seq<u8>, lo: int, hi: int, p: Seq<u8>) -> bool {
    p.len() <= hi - lo && b.subrange(lo, lo + p.len()) == p
}

/// The first position in `b[lo..hi]` where `p` starts, if any.
pub open spec fn find_from(b: Seq<u8>, lo: int, hi: int, p: Seq<u8>) -> Option<int>
    decreases hi - lo,
{
    if lo >= hi || lo + p.len() > hi {
        None
    } else if has_prefix_at(b, lo, hi, p) {
        Some(lo)
    } else {
        find_from(b, lo + 1, hi, p)
    }
}

pub open spec fn free_label() -> Seq<u8> {
    seq!['P' as u8, 'a' as u8, 'g' as u8, 'e' as u8, 's' as u8, ' ' as u8, 'f' as u8, 'r' as u8, 'e' as u8, 'e' as u8, ':' as u8]
}

pub open spec fn inactive_label() -> Seq<u8> {
    seq!['P' as u8, 'a' as u8, 'g' as u8, 'e' as u8, 's' as u8, ' ' as u8, 'i' as u8, 'n' as u8, 'a' as u8, 'c' as u8, 't' as u8, 'i' as u8, 'v' as u8, 'e' as u8, ':' as u8]
}

pub open spec fn header_label() -> Seq<u8> {
    seq!['M' as u8, 'a' as u8, 'c' as u8, 'h' as u8, ' ' as u8, 'V' as u8, 'i' as u8, 'r' as u8, 't' as u8, 'u' as u8, 'a' as u8, 'l' as u8, ' ' as u8, 'M' as u8, 'e' as u8, 'm' as u8, 'o' as u8, 'r' as u8, 'y' as u8, ' ' as u8, 'S' as u8, 't' as u8, 'a' as u8, 't' as u8, 'i' as u8, 's' as u8, 't' as u8, 'i' as u8, 'c' as u8, 's' as u8, ':' as u8]
}

pub open spec fn size_open() -> Seq<u8> {
    seq!['o' as u8, 'f' as u8, ' ' as u8]
}

pub open spec fn size_close() -> Seq<u8> {
    seq![' ' as u8, 'b' as u8, 'y' as u8, 't' as u8, 'e' as u8, 's' as u8, ')' as u8]
}

/// Where the run of bytes that starts at `lo` and holds no white space
/// ends, within `hi`.
pub open spec fn token_end(b: Seq<u8>, lo: int, hi: int) -> int
    decreases hi - lo,
{
    if lo < hi && space_len(b, lo, hi) == 0 {
        token_end(b, lo + 1, hi)
    } else {
        lo
    }
}

/// Start and end of the white-space-separated token number `n` (from zero)
/// of `b[lo..hi]`, if there are that many.
pub open spec fn nth_token(b: Seq<u8>, lo: int, hi: int, n: nat) -> Option<(int, int)>
    decreases n,
{
    let s = skip_spaces(b, lo, hi);
    if s >= hi {
        None
    } else if n == 0 {
        Some((s, token_end(b, s, hi)))
    } else {
        nth_token(b, token_end(b, s, hi), hi, (n - 1) as nat)
    }
}

/// The count of a `Pages ...:` line `b[lo..hi]`: its third token, with
/// trailing dots dropped. `None` when the line has no third token;
/// `Some(None)` when that token is not a number that fits in `usize`.
pub open spec fn page_count(b: Seq<u8>, lo: int, hi: int) -> Option<Option<usize>> {
    match nth_token(b, lo, hi, 2) {
        Some((s, e)) => Some(number_in(b, s, trim_dots_end(b, s, e))),
        None => None,
    }
}

/// The figures after one line `b[lo..hi]` of `vm_stat`'s output, or `None`
/// when a line that names a figure does not hold a readable number.
pub open spec fn apply_line(c: VmStatCounts, b: Seq<u8>, lo: int, hi: int) -> Option<VmStatCounts> {
    if has_prefix_at(b, lo, hi, free_label()) {
        match page_count(b, lo, hi) {
            Some(Some(v)) => Some(VmStatCounts { free_pages: v, ..c }),
            Some(None) => None,
            None => Some(c),
        }
    } else if has_prefix_at(b, lo, hi, inactive_label()) {
        match page_count(b, lo, hi) {
            Some(Some(v)) => Some(VmStatCounts { inactive_pages: v, ..c }),
            Some(None) => None,
            None => Some(c),
        }
    } else if has_prefix_at(b, lo, hi, header_label()) {
        match (find_from(b, lo, hi, size_open()), find_from(b, lo, hi, size_close())) {
            (Some(s), Some(e)) => match number_in(b, s + 3, e) {
                Some(v) => Some(VmStatCounts { page_size: v, ..c }),
                None => None,
            },
            _ => Some(c),
        }
    } else {
        Some(c)
    }
}

/// The figures after the lines of `b` from index `i` on.
pub open spec fn scan_lines(b: Seq<u8>, i: int, c: VmStatCounts) -> Option<VmStatCounts>
    decreases b.len() - i,
{
    if i < 0 || i >= b.len() {
        Some(c)
    } else {
        let e = line_end(b, i);
        if e < i || e >= b.len() {
            apply_line(c, b, i, b.len() as int)
        } else {
            match apply_line(c, b, i, e) {
                Some(c2) => scan_lines(b, e + 1, c2),
                None => None,
            }
        }
    }
}

/// The figures of a whole `vm_stat` output; a figure that no line gives is zero.
pub open spec fn vm_stat_counts(b: Seq<u8>) -> Option<VmStatCounts> {
    scan_lines(b, 0, VmStatCounts { free_pages: 0, inactive_pages: 0, page_size: 0 })
}

fn free_label_bytes() -> (r: Vec<u8>)
    ensures
        r@ == free_label(),
{
    vec!['P' as u8, 'a' as u8, 'g' as u8, 'e' as u8, 's' as u8, ' ' as u8, 'f' as u8, 'r' as u8, 'e' as u8, 'e' as u8, ':' as u8]
}

fn inactive_label_bytes() -> (r: Vec<u8>)
    ensures
        r@ == inactive_label(),
{
    vec!['P' as u8, 'a' as u8, 'g' as u8, 'e' as u8, 's' as u8, ' ' as u8, 'i' as u8, 'n' as u8, 'a' as u8, 'c' as u8, 't' as u8, 'i' as u8, 'v' as u8, 'e' as u8, ':' as u8]
}

fn header_label_bytes() -> (r: Vec<u8>)
    ensures
        r@ == header_label(),
{
    vec!['M' as u8, 'a' as u8, 'c' as u8, 'h' as u8, ' ' as u8, 'V' as u8, 'i' as u8, 'r' as u8, 't' as u8, 'u' as u8, 'a' as u8, 'l' as u8, ' ' as u8, 'M' as u8, 'e' as u8, 'm' as u8, 'o' as u8, 'r' as u8, 'y' as u8, ' ' as u8, 'S' as u8, 't' as u8, 'a' as u8, 't' as u8, 'i' as u8, 's' as u8, 't' as u8, 'i' as u8, 'c' as u8, 's' as u8, ':' as u8]
}

fn size_open_bytes() -> (r: Vec<u8>)
    ensures
        r@ == size_open(),
{
    vec!['o' as u8, 'f' as u8, ' ' as u8]
}

fn size_close_bytes() -> (r: Vec<u8>)
    ensures
        r@ == size_close(),
{
    vec![' ' as u8, 'b' as u8, 'y' as u8, 't' as u8, 'e' as u8, 's' as u8, ')' as u8]
}

fn line_end_at(b: &[u8], i: usize) -> (e: usize)
    requires
        i <= b@.len(),
    ensures
        e == line_end(b@, i as int),
        i <= e <= b@.len(),
{
    let mut j: usize = i;
    while j < b.len()
        invariant
            i <= j <= b@.len(),
            line_end(b@, j as int) == line_end(b@, i as int),
        decreases b@.len() - j,
    {
        if b[j] == 10 {
            return j;
        }
        j = j + 1;
    }
    j
}

fn space_len_at(b: &[u8], i: usize, hi: usize) -> (r: usize)
    requires
        i < hi <= b@.len(),
    ensures
        r == space_len(b@, i as int, hi as int),
        r <= hi - i,
{
    let c = b[i];
    if c == 32 || c == 9 || c == 10 || c == 11 || c == 12 || c == 13 {
        1
    } else if hi - i >= 2 && c == 0xc2 && (b[i + 1] == 0x85 || b[i + 1] == 0xa0) {
        2
    } else if hi - i >= 3 && c == 0xe1 && b[i + 1] == 0x9a && b[i + 2] == 0x80 {
        3
    } else if hi - i >= 3 && c == 0xe2 && b[i + 1] == 0x80 && ((0x80 <= b[i + 2] && b[i + 2]
        <= 0x8a) || b[i + 2] == 0xa8 || b[i + 2] == 0xa9 || b[i + 2] == 0xaf) {
        3
    } else if hi - i >= 3 && c == 0xe2 && b[i + 1] == 0x81 && b[i + 2] == 0x9f {
        3
    } else if hi - i >= 3 && c == 0xe3 && b[i + 1] == 0x80 && b[i + 2] == 0x80 {
        3
    } else {
        0
    }
}

fn skip_spaces_at(b: &[u8], lo: usize, hi: usize) -> (r: usize)
    requires
        lo <= hi <= b@.len(),
    ensures
        r == skip_spaces(b@, lo as int, hi as int),
        lo <= r <= hi,
{
    let mut j: usize = lo;
    while j < hi
        invariant
            lo <= j <= hi <= b@.len(),
            skip_spaces(b@, j as int, hi as int) == skip_spaces(b@, lo as int, hi as int),
        decreases hi - j,
    {
        let n = space_len_at(b, j, hi);
        if n == 0 {
            return j;
        }
        j = j + n;
    }
    j
}

fn trim_dots_end_at(b: &[u8], lo: usize, hi: usize) -> (r: usize)
    requires
        lo <= hi <= b@.len(),
    ensures
        r == trim_dots_end(b@, lo as int, hi as int),
        lo <= r <= hi,
{
    let mut j: usize = hi;
    while lo < j && b[j - 1] == 46
        invariant
            lo <= j <= hi <= b@.len(),
            trim_dots_end(b@, lo as int, j as int) == trim_dots_end(b@, lo as int, hi as int),
        decreases j - lo,
    {
        j = j - 1;
    }
    j
}

proof fn lemma_digits_grow(b: Seq<u8>, lo: int, i: int, hi: int)
    requires
        lo <= i <= hi <= b.len(),
        all_digits(b, lo, hi),
    ensures
        digits_value(b, lo, i) <= digits_value(b, lo, hi),
    decreases hi - i,
{
    if i < hi {
        lemma_digits_grow(b, lo, i, hi - 1);
    }
}

fn parse_number(b: &[u8], lo: usize, hi: usize) -> (r: Option<usize>)
    requires
        lo <= hi <= b@.len(),
    ensures
        r == number_in(b@, lo as int, hi as int),
{
    if lo < hi && b[lo] == 43 {
        parse_digits(b, lo + 1, hi)
    } else {
        parse_digits(b, lo, hi)
    }
}

fn parse_digits(b: &[u8], lo: usize, hi: usize) -> (r: Option<usize>)
    requires
        lo <= hi <= b@.len(),
    ensures
        r == digits_in(b@, lo as int, hi as int),
{
    if lo == hi {
        return None;
    }
    let mut acc: usize = 0;
    let mut j: usize = lo;
    while j < hi
        invariant
            lo <= j <= hi <= b@.len(),
            all_digits(b@, lo as int, j as int),
            acc == digits_value(b@, lo as int, j as int),
        decreases hi - j,
    {
        let d = b[j];
        if d < 48 || d > 57 {
            return None;
        }
        let digit: usize = (d - 48) as usize;
        if acc > (usize::MAX - digit) / 10 {
            proof {
                assert(all_digits(b@, lo as int, hi as int) ==> digits_value(b@, lo as int, (j + 1) as int)
                    > usize::MAX) by (nonlinear_arith)
                    requires
                        acc > (usize::MAX - digit) / 10,
                        digits_value(b@, lo as int, (j + 1) as int) == acc * 10 + digit,
                {
                }
                if all_digits(b@, lo as int, hi as int) {
                    lemma_digits_grow(b@, lo as int, (j + 1) as int, hi as int);
                }
            }
            return None;
        }
        proof {
            assert(acc * 10 + digit <= usize::MAX) by (nonlinear_arith)
                requires
                    acc <= (usize::MAX - digit) / 10,
                    digit <= 9,
            {
            }
        }
        acc = acc * 10 + digit;
        j = j + 1;
    }
    Some(acc)
}

fn prefix_at(b: &[u8], lo: usize, hi: usize, p: &[u8]) -> (r: bool)
    requires
        lo <= hi <= b@.len(),
    ensures
        r == has_prefix_at(b@, lo as int, hi as int, p@),
{
    if p.len() > hi - lo {
        return false;
    }
    let mut k: usize = 0;
    while k < p.len()
        invariant
            p@.len() <= hi - lo,
            lo <= hi <= b@.len(),
            k <= p@.len(),
            forall|t: int| 0 <= t < k ==> b@[lo + t] == p@[t],
        decreases p@.len() - k,
    {
        if b[lo + k] != p[k] {
            assert(b@.subrange(lo as int, lo + p@.len())[k as int] != p@[k as int]);
            return false;
        }
        k = k + 1;
    }
    assert(b@.subrange(lo as int, lo + p@.len()) =~= p@);
    true
}

fn find_in(b: &[u8], lo: usize, hi: usize, p: &[u8]) -> (r: Option<usize>)
    requires
        lo <= hi <= b@.len(),
    ensures
        match r {
            Some(k) => find_from(b@, lo as int, hi as int, p@) == Some(k as int) && lo <= k <= hi,
            None => find_from(b@, lo as int, hi as int, p@) is None,
        },
{
    let mut j: usize = lo;
    while j < hi && p.len() <= hi - j
        invariant
            lo <= j <= hi <= b@.len(),
            find_from(b@, j as int, hi as int, p@) == find_from(b@, lo as int, hi as int, p@),
        decreases hi - j,
    {
        if prefix_at(b, j, hi, p) {
            return Some(j);
        }
        j = j + 1;
    }
    None
}

/// The patterns that `vm_stat` output is read by.
struct VmStatLabels {
    free: Vec<u8>,
    inactive: Vec<u8>,
    header: Vec<u8>,
    size_open: Vec<u8>,
    size_close: Vec<u8>,
}

impl VmStatLabels {
    spec fn wf(&self) -> bool {
        &&& self.free@ == free_label()
        &&& self.inactive@ == inactive_label()
        &&& self.header@ == header_label()
        &&& self.size_open@ == size_open()
        &&& self.size_close@ == size_close()
    }

    fn new() -> (r: VmStatLabels)
        ensures
            r.wf(),
    {
        VmStatLabels {
            free: free_label_bytes(),
            inactive: inactive_label_bytes(),
            header: header_label_bytes(),
            size_open: size_open_bytes(),
            size_close: size_close_bytes(),
        }
    }
}

fn token_end_at(b: &[u8], lo: usize, hi: usize) -> (r: usize)
    requires
        lo <= hi <= b@.len(),
    ensures
        r == token_end(b@, lo as int, hi as int),
        lo <= r <= hi,
{
    let mut j: usize = lo;
    while j < hi && space_len_at(b, j, hi) == 0
        invariant
            lo <= j <= hi <= b@.len(),
            token_end(b@, j as int, hi as int) == token_end(b@, lo as int, hi as int),
        decreases hi - j,
    {
        j = j + 1;
    }
    j
}

fn nth_token_at(b: &[u8], lo: usize, hi: usize, n: usize) -> (r: Option<(usize, usize)>)
    requires
        lo <= hi <= b@.len(),
    ensures
        match r {
            Some((s, e)) => nth_token(b@, lo as int, hi as int, n as nat) == Some((s as int, e as int))
                && lo <= s <= e <= hi,
            None => nth_token(b@, lo as int, hi as int, n as nat) is None,
        },
{
    let mut pos: usize = lo;
    let mut k: usize = n;
    loop
        invariant
            lo <= pos <= hi <= b@.len(),
            nth_token(b@, pos as int, hi as int, k as nat) == nth_token(b@, lo as int, hi as int, n as nat),
        decreases k,
    {
        let s = skip_spaces_at(b, pos, hi);
        if s >= hi {
            return None;
        }
        let e = token_end_at(b, s, hi);
        if k == 0 {
            return Some((s, e));
        }
        pos = e;
        k = k - 1;
    }
}

fn page_count_at(b: &[u8], lo: usize, hi: usize) -> (r: Option<Option<usize>>)
    requires
        lo <= hi <= b@.len(),
    ensures
        r == page_count(b@, lo as int, hi as int),
{
    match nth_token_at(b, lo, hi, 2) {
        Some((s, e)) => {
            let e = trim_dots_end_at(b, s, e);
            Some(parse_number(b, s, e))
        },
        None => None,
    }
}

fn apply_line_at(c: VmStatCounts, b: &[u8], lo: usize, hi: usize, labels: &VmStatLabels) -> (r:
    Option<VmStatCounts>)
    requires
        lo <= hi <= b@.len(),
        labels.wf(),
    ensures
        r == apply_line(c, b@, lo as int, hi as int),
{
    if prefix_at(b, lo, hi, labels.free.as_slice()) {
        match page_count_at(b, lo, hi) {
            Some(Some(v)) => Some(VmStatCounts { free_pages: v, ..c }),
            Some(None) => None,
            None => Some(c),
        }
    } else if prefix_at(b, lo, hi, labels.inactive.as_slice()) {
        match page_count_at(b, lo, hi) {
            Some(Some(v)) => Some(VmStatCounts { inactive_pages: v, ..c }),
            Some(None) => None,
            None => Some(c),
        }
    } else if prefix_at(b, lo, hi, labels.header.as_slice()) {
        let open = find_in(b, lo, hi, labels.size_open.as_slice());
        let close = find_in(b, lo, hi, labels.size_close.as_slice());
        match (open, close) {
            (Some(s), Some(e)) => {
                if e < s || e - s < 3 {
                    return None;
                }
                match parse_number(b, s + 3, e) {
                    Some(v) => Some(VmStatCounts { page_size: v, ..c }),
                    None => None,
                }
            },
            _ => Some(c),
        }
    } else {
        Some(c)
    }
}

/// Reads the free-page count, the inactive-page count and the page size out
/// of `vm_stat`'s output. A figure that no line gives stays zero; a line that
/// names a figure but holds no number that fits in `usize` is an error.
pub fn parse_vm_stat(output: &str) -> (r: Result<VmStatCounts, PlatformQueryError>)
    ensures
        match vm_stat_counts(output.spec_bytes()) {
            Some(c) => r == Ok::<VmStatCounts, PlatformQueryError>(c),
            None => r == Err::<VmStatCounts, PlatformQueryError>(PlatformQueryError::Malformed),
        },
{
    parse_vm_stat_bytes(output.as_bytes())
}

fn parse_vm_stat_bytes(output: &[u8]) -> (r: Result<VmStatCounts, PlatformQueryError>)
    ensures
        match vm_stat_counts(output@) {
            Some(c) => r == Ok::<VmStatCounts, PlatformQueryError>(c),
            None => r == Err::<VmStatCounts, PlatformQueryError>(PlatformQueryError::Malformed),
        },
{
    let labels = VmStatLabels::new();
    let mut c = VmStatCounts { free_pages: 0, inactive_pages: 0, page_size: 0 };
    let mut i: usize = 0;
    while i < output.len()
        invariant
            i <= output@.len(),
            labels.wf(),
            scan_lines(output@, i as int, c) == vm_stat_counts(output@),
        decreases output@.len() - i,
    {
        let e = line_end_at(output, i);
        if e >= output.len() {
            return match apply_line_at(c, output, i, output.len(), &labels) {
                Some(c2) => Ok(c2),
                None => Err(PlatformQueryError::Malformed),
            };
        }
        match apply_line_at(c, output, i, e, &labels) {
            Some(c2) => {
                c = c2;
                i = e + 1;
            },
            None => {
                return Err(PlatformQueryError::Malformed);
            },
        }
    }
    Ok(c)
}

/// Available memory in bytes from `vm_stat`'s output: free and inactive
/// pages, times the page size.
pub fn available_memory_from_vm_stat(output: &str) -> (r: Result<usize, PlatformQueryError>)
    ensures
        match vm_stat_counts(output.spec_bytes()) {
            Some(c) => if available_bytes(c) <= usize::MAX {
                r == Ok::<usize, PlatformQueryError>(available_bytes(c) as usize)
            } else {
                r == Err::<usize, PlatformQueryError>(PlatformQueryError::Overflow)
            },
            None => r == Err::<usize, PlatformQueryError>(PlatformQueryError::Malformed),
        },
{
    let c = match parse_vm_stat(output) {
        Ok(c) => c,
        Err(e) => return Err(e),
    };
    if c.page_size == 0 {
        return Ok(0);
    }
    let pages = match c.free_pages.checked_add(c.inactive_pages) {
        Some(p) => p,
        None => {
            proof {
                let sum = c.free_pages + c.inactive_pages;
                assert(sum * c.page_size >= sum) by (nonlinear_arith)
                    requires
                        c.page_size >= 1,
                        sum >= 0,
                {
                }
            }
            return Err(PlatformQueryError::Overflow);
        },
    };
    match pages.checked_mul(c.page_size) {
        Some(v) => Ok(v),
        None => Err(PlatformQueryError::Overflow),
    }
}

/// The kinds of device whose memory can be asked about.
#[derive(PartialEq, Eq, Structural, Clone, Copy, Debug)]
pub enum DeviceKind {
    Cpu,
    Cuda,
    Metal,
}

/// Where a memory figure of a device is read from.
#[derive(PartialEq, Eq, Structural, Clone, Copy, Debug)]
pub enum MemorySource {
    /// The operating system's memory statistics of the host.
    SystemInfo,
    /// The output of `vm_stat`, read by [`available_memory_from_vm_stat`].
    VmStat,
    /// The output of `sysctl hw.memsize`, read by [`total_memory_from_sysctl`].
    Sysctl,
    /// No query is available for this device in this build.
    Unsupported,
}

/// Answers how much memory a device has and how much of it is available.
pub struct MemoryUsage;

impl MemoryUsage {
    /// Where the available memory of `device` is read from.
    pub fn available_memory_source(&self, device: DeviceKind) -> (r: MemorySource)
        ensures
            r == match device {
                DeviceKind::Cpu => MemorySource::SystemInfo,
                DeviceKind::Cuda => MemorySource::Unsupported,
                DeviceKind::Metal => MemorySource::VmStat,
            },
    {
        match device {
            DeviceKind::Cpu => MemorySource::SystemInfo,
            DeviceKind::Cuda => MemorySource::Unsupported,
            DeviceKind::Metal => MemorySource::VmStat,
        }
    }

    /// Where the total memory of `device` is read from.
    pub fn total_memory_source(&self, device: DeviceKind) -> (r: MemorySource)
        ensures
            r == match device {
                DeviceKind::Cpu => MemorySource::SystemInfo,
                DeviceKind::Cuda => MemorySource::Unsupported,
                DeviceKind::Metal => MemorySource::Sysctl,
            },
    {
        match device {
            DeviceKind::Cpu => MemorySource::SystemInfo,
            DeviceKind::Cuda => MemorySource::Unsupported,
            DeviceKind::Metal => MemorySource::Sysctl,
        }
    }

    /// A byte count that the host statistics reported, as a `usize`.
    pub fn bytes_from_system(&self, bytes: u64) -> (r: Result<usize, PlatformQueryError>)
        ensures
            bytes <= usize::MAX ==> r == Ok::<usize, PlatformQueryError>(bytes as usize),
            bytes > usize::MAX ==> r == Err::<usize, PlatformQueryError>(
                PlatformQueryError::Overflow,
            ),
    {
        if bytes <= usize::MAX as u64 {
            Ok(bytes as usize)
        } else {
            Err(PlatformQueryError::Overflow)
        }
    }
}


/// The characters that `char::is_whitespace` accepts: those of Unicode's
/// `White_Space` property.
pub open spec fn is_white_space(c: char) -> bool {
    ('\t' <= c <= '\r') || c == ' ' || c == '\u{85}' || c == '\u{a0}' || c == '\u{1680}' || (
    '\u{2000}' <= c <= '\u{200a}') || c == '\u{2028}' || c == '\u{2029}' || c == '\u{202f}'
        || c == '\u{205f}' || c == '\u{3000}'
}

/// `s` without its leading white space.
pub open spec fn trim_start_ws(s: Seq<char>) -> Seq<char>
    decreases s.len(),
{
    if s.len() > 0 && is_white_space(s[0]) {
        trim_start_ws(s.drop_first())
    } else {
        s
    }
}

/// `s` without its trailing white space.
pub open spec fn trim_end_ws(s: Seq<char>) -> Seq<char>
    decreases s.len(),
{
    if s.len() > 0 && is_white_space(s.last()) {
        trim_end_ws(s.drop_last())
    } else {
        s
    }
}

/// `s` without every leading copy of a non-empty `p`.
pub open spec fn strip_repeated(s: Seq<char>, p: Seq<char>) -> Seq<char>
    decreases s.len(),
{
    if p.len() > 0 && p.len() <= s.len() && s.subrange(0, p.len() as int) == p {
        strip_repeated(s.subrange(p.len() as int, s.len() as int), p)
    } else {
        s
    }
}

pub open spec fn is_digit_char(c: char) -> bool {
    '0' <= c <= '9'
}

/// The decimal value of the digits `s`.
pub open spec fn digit_chars_value(s: Seq<char>) -> nat
    decreases s.len(),
{
    if s.len() == 0 {
        0
    } else {
        digit_chars_value(s.drop_last()) * 10 + (s.last() as nat - '0' as nat) as nat
    }
}

/// What parsing `s` as a `usize` gives: an optional `+`, then one or more
/// digits whose value fits.
pub open spec fn usize_of(s: Seq<char>) -> Option<usize> {
    let d = if s.len() > 0 && s[0] == '+' {
        s.drop_first()
    } else {
        s
    };
    if d.len() > 0 && (forall|k: int| 0 <= k < d.len() ==> is_digit_char(#[trigger] d[k]))
        && digit_chars_value(d) <= usize::MAX {
        Some(digit_chars_value(d) as usize)
    } else {
        None
    }
}

/// The total memory that `sysctl hw.memsize` printed: what follows the
/// label, trimmed of white space, read as a `usize`.
pub open spec fn sysctl_memsize(s: Seq<char>) -> Option<usize> {
    usize_of(trim_end_ws(trim_start_ws(strip_repeated(s, "hw.memsize: "@))))
}

/// Relies on `str::trim_start_matches` with a string pattern: removes every
/// leading copy of the pattern.
#[verifier::external_body]
fn str_trim_start_matches<'a>(s: &'a str, p: &str) -> (r: &'a str)
    requires
        p@.len() > 0,
    ensures
        r@ == strip_repeated(s@, p@),
{
    s.trim_start_matches(p)
}

/// Relies on `str::trim`: removes leading and trailing white space, as
/// `char::is_whitespace` defines it.
#[verifier::external_body]
fn str_trim(s: &str) -> (r: &str)
    ensures
        r@ == trim_end_ws(trim_start_ws(s@)),
{
    s.trim()
}

/// Relies on `str::parse::<usize>`: an optional `+`, then decimal digits
/// whose value fits in `usize`; anything else is an error.
#[verifier::external_body]
fn parse_usize(s: &str) -> (r: Option<usize>)
    ensures
        r == usize_of(s@),
{
    s.parse::<usize>().ok()
}

/// Total memory in bytes from the output of `sysctl hw.memsize`: what
/// follows the label, trimmed of white space, read as a `usize`.
pub fn total_memory_from_sysctl(output: &str) -> (r: Result<usize, PlatformQueryError>)
    ensures
        match sysctl_memsize(output@) {
            Some(v) => r == Ok::<usize, PlatformQueryError>(v),
            None => r == Err::<usize, PlatformQueryError>(PlatformQueryError::Malformed),
        },
{
    proof {
        reveal_strlit("hw.memsize: ");
    }
    let rest = str_trim_start_matches(output, "hw.memsize: ");
    match parse_usize(str_trim(rest)) {
        Some(v) => Ok(v),
        None => Err(PlatformQueryError::Malformed),
    }
}

} // verus!
