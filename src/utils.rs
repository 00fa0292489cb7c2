//! Thread budgeting for batch runs and shortening of file names for
//! messages.

use vstd::prelude::*;
use vstd::string::{StrSliceExecFns, StringSliceAdditionalSpecFns, StringExecFns};
use vstd::utf8::{encode_utf8, is_char_boundary};

verus! {

/// Threads for a batch: how many workers to spawn, and how many codec
/// threads each task gets.
#[derive(Debug, Copy, Clone)]
pub struct ThreadCount {
    pub task_threads: usize,
    pub spawn_threads: usize,
}

/// The requested thread count, or one per CPU for 0; never 0.
pub fn sys_threads(num: usize) -> (n: usize)
    ensures
        n >= 1,
        num > 0 ==> n == num,
{
    if num > 0 {
        num
    } else {
        num_cpus::get()
    }
}

/// Splits the thread budget over `num_items` jobs: one worker per thread,
/// and each task gets one thread, or an equal share of them when there are
/// fewer jobs than threads.
pub fn calculate_tread_count(num_threads: usize, num_items: usize) -> (t: ThreadCount)
    requires
        num_items >= 1,
    ensures
        t.spawn_threads >= 1,
        num_threads > 0 ==> t.spawn_threads == num_threads,
        t.task_threads == if num_items >= t.spawn_threads {
            1
        } else {
            t.spawn_threads / num_items
        },
{
    let sel_thread_count = sys_threads(num_threads);
    let job_per_thread = if num_items >= sel_thread_count {
        1
    } else {
        sel_thread_count / num_items
    };
    ThreadCount { task_threads: job_per_thread, spawn_threads: sel_thread_count }
}

/// Whether `char::is_alphanumeric` holds of `c` (Unicode Alphabetic or
/// Numeric).
pub uninterp spec fn is_alnum(c: char) -> bool;

/// Relies on `char::is_alphanumeric`, a function of the character alone.
#[verifier::external_body]
fn char_is_alphanumeric(c: char) -> (r: bool)
    ensures
        r == is_alnum(c),
{
    c.is_alphanumeric()
}

/// Relies on `String::push`: appends one character.
#[verifier::external_body]
pub(crate) fn push_char(s: &mut String, c: char)
    ensures
        final(s)@ == old(s)@.push(c),
{
    s.push(c)
}

/// Counting from the end (0 is the last character), the position of the
/// first character at or after `p` that is not alphanumeric.
pub open spec fn non_alnum_from_end(cs: Seq<char>, p: int) -> Option<int>
    decreases cs.len() - p,
{
    if p < 0 || p >= cs.len() {
        None
    } else if !is_alnum(cs[cs.len() - 1 - p]) {
        Some(p)
    } else {
        non_alnum_from_end(cs, p + 1)
    }
}

pub open spec fn digit_char(d: int) -> char {
    if d == 0 {
        '0'
    } else if d == 1 {
        '1'
    } else if d == 2 {
        '2'
    } else if d == 3 {
        '3'
    } else if d == 4 {
        '4'
    } else if d == 5 {
        '5'
    } else if d == 6 {
        '6'
    } else if d == 7 {
        '7'
    } else if d == 8 {
        '8'
    } else {
        '9'
    }
}

/// The decimal digits of `v`, least significant first.
pub open spec fn rev_decimal(v: nat) -> Seq<char>
    decreases v,
{
    if v < 10 {
        seq![digit_char(v as int)]
    } else {
        seq![digit_char((v % 10) as int)] + rev_decimal(v / 10)
    }
}

fn digit(d: usize) -> (c: char)
    requires
        d < 10,
    ensures
        c == digit_char(d as int),
{
    if d == 0 {
        '0'
    } else if d == 1 {
        '1'
    } else if d == 2 {
        '2'
    } else if d == 3 {
        '3'
    } else if d == 4 {
        '4'
    } else if d == 5 {
        '5'
    } else if d == 6 {
        '6'
    } else if d == 7 {
        '7'
    } else if d == 8 {
        '8'
    } else {
        '9'
    }
}

fn push_rev_decimal(out: &mut String, x: usize)
    ensures
        final(out)@ == old(out)@ + rev_decimal(x as nat),
{
    let ghost start = out@;
    push_char(out, digit(x % 10));
    let mut v = x / 10;
    assert(x < 10 ==> rev_decimal(x as nat) == seq![digit_char(x as int)]);
    while v > 0
        invariant
            v == 0 ==> out@ == start + rev_decimal(x as nat),
            v > 0 ==> out@ + rev_decimal(v as nat) == start + rev_decimal(x as nat),
        decreases v,
    {
        let ghost before = out@;
        push_char(out, digit(v % 10));
        assert(rev_decimal(v as nat) == seq![digit_char((v % 10) as int)] + (if v / 10 == 0 {
            Seq::<char>::empty()
        } else {
            rev_decimal((v / 10) as nat)
        }));
        assert(out@ == before.push(digit_char((v % 10) as int)));
        v = v / 10;
        if v == 0 {
            assert(out@ =~= start + rev_decimal(x as nat));
        } else {
            assert(out@ + rev_decimal(v as nat) =~= start + rev_decimal(x as nat));
        }
    }
}

/// Where `truncate_str` cuts `s` (in bytes) when it is longer than `size`.
pub open spec fn truncation_cut(cs: Seq<char>, size: int) -> int {
    match non_alnum_from_end(cs, 0) {
        Some(p) => size - p,
        None => 0,
    }
}

/// The inputs on which `truncate_str` is defined: more than 3 bytes, and a
/// cut that falls on a character boundary inside the name.
pub open spec fn truncatable(s: &str, size: int) -> bool {
    &&& s.spec_bytes().len() > 3
    &&& s.spec_bytes().len() > size ==> match non_alnum_from_end(s@, 0) {
        Some(p) => p <= size && is_char_boundary(s.spec_bytes(), size - p),
        None => size <= s@.len(),
    }
}

/// What `truncate_str` appends after the cut: without a non-alphanumeric
/// character, the (up to) three characters that start `size` characters
/// before the end; then the digits of the cut position (or of `size`),
/// least significant first.
pub open spec fn truncation_tail(cs: Seq<char>, size: int) -> Seq<char> {
    match non_alnum_from_end(cs, 0) {
        Some(p) => rev_decimal(p as nat),
        None => {
            let start = cs.len() - size;
            let end = if start + 3 < cs.len() {
                start + 3
            } else {
                cs.len() as int
            };
            cs.subrange(start, end) + rev_decimal(size as nat)
        },
    }
}

/// Shortens a file name for display: a name of at most `size` bytes is
/// kept; a longer one keeps the bytes before the cut of `truncation_cut`,
/// followed by `truncation_tail` and `...`.
pub fn truncate_str(str: &str, size: usize) -> (r: String)
    requires
        truncatable(str, size as int),
        str.spec_bytes().len() <= usize::MAX,
    ensures
        str.spec_bytes().len() <= size ==> r@ == str@,
        str.spec_bytes().len() > size ==> exists|prefix: Seq<char>|
            encode_utf8(prefix) == str.spec_bytes().subrange(
                0,
                truncation_cut(str@, size as int),
            ) && r@ == prefix + truncation_tail(str@, size as int) + seq!['.', '.', '.'],
{
    if str.len() <= size {
        return String::from_str(str);
    }
    let n = str.unicode_len();
    let mut p: usize = 0;
    while p < n && char_is_alphanumeric(str.get_char(n - 1 - p))
        invariant
            n == str@.len(),
            p <= n,
            non_alnum_from_end(str@, 0) == non_alnum_from_end(str@, p as int),
        decreases n - p,
    {
        p = p + 1;
    }
    let found = p < n;
    assert(found ==> non_alnum_from_end(str@, 0) == Some(p as int));
    assert(!found ==> non_alnum_from_end(str@, 0) is None);
    let cut = if found {
        size - p
    } else {
        0
    };
    proof {
        vstd::utf8::encode_utf8_valid_utf8(str@);
        vstd::utf8::is_char_boundary_start_end_of_seq(str.spec_bytes());
    }
    let (head, _) = str.split_at(cut);
    let mut truncated = String::from_str(head);
    let ghost prefix = head@;
    if !found {
        let start = n - size;
        let mut k: usize = start;
        while k < n && k - start < 3
            invariant
                start <= k <= n,
                k - start <= 3,
                n == str@.len(),
                truncated@ == prefix + str@.subrange(start as int, k as int),
            decreases n - k,
        {
            push_char(&mut truncated, str.get_char(k));
            k = k + 1;
            assert(truncated@ =~= prefix + str@.subrange(start as int, k as int));
        }
        assert(truncated@ == prefix + truncation_tail(str@, size as int).subrange(
            0,
            (k - start) as int,
        ));
        push_rev_decimal(&mut truncated, size);
        assert(truncated@ =~= prefix + truncation_tail(str@, size as int));
    } else {
        push_rev_decimal(&mut truncated, p);
        assert(truncated@ =~= prefix + truncation_tail(str@, size as int));
    }
    let dots = "...";
    proof {
        reveal_strlit("...");
    }
    assert(dots@ =~= seq!['.', '.', '.']);
    truncated.append(dots);
    assert(truncated@ =~= prefix + truncation_tail(str@, size as int) + seq!['.', '.', '.']);
    truncated
}

/// Whether `truncate_str(str, size)` is defined.
pub fn is_truncatable(str: &str, size: usize) -> (r: bool)
    requires
        str.spec_bytes().len() <= usize::MAX,
    ensures
        r == truncatable(str, size as int),
{
    let len = str.len();
    if len <= 3 {
        return false;
    }
    if len <= size {
        return true;
    }
    let n = str.unicode_len();
    let mut p: usize = 0;
    while p < n && char_is_alphanumeric(str.get_char(n - 1 - p))
        invariant
            n == str@.len(),
            p <= n,
            non_alnum_from_end(str@, 0) == non_alnum_from_end(str@, p as int),
        decreases n - p,
    {
        p = p + 1;
    }
    if p < n {
        p <= size && str.is_char_boundary(size - p)
    } else {
        size <= n
    }
}

} // verus!
