//! The debugger's command line:
//!
//! ```text
//! step [n] | s [n]          run n instructions (1 when n is left out)
//! mem a [b] | m a [b]       show the byte at a, or the bytes from a to b
//! cont | c                  run on
//! exit | e | quit | q       leave
//! ```
//!
//! `n` is decimal, `a` and `b` hexadecimal with an optional `0x`; each is
//! preceded by spaces or tabs and must fit in 16 bits.

use vstd::prelude::*;

verus! {

/// A debugger command.
#[derive(Clone, Copy, Debug, PartialEq, Eq, Structural)]
pub enum Command {
    Step(u16),
    Mem(u16),
    MemRng(u16, u16),
    Cont,
    Exit,
}

/// Whether byte `i` of `s` exists and is `b`.
pub open spec fn byte_is(s: Seq<u8>, i: int, b: u8) -> bool {
    0 <= i < s.len() && s[i] == b
}

pub open spec fn is_space(b: u8) -> bool {
    b == 0x20 || b == 0x09
}

pub open spec fn is_digit(b: u8) -> bool {
    0x30 <= b <= 0x39
}

pub open spec fn is_hex_digit(b: u8) -> bool {
    is_digit(b) || (0x41 <= b <= 0x46) || (0x61 <= b <= 0x66)
}

pub open spec fn hex_digit_value(b: u8) -> int {
    if is_digit(b) {
        b - 0x30
    } else if 0x41 <= b <= 0x46 {
        b - 0x41 + 10
    } else {
        b - 0x61 + 10
    }
}

pub open spec fn spaces() -> spec_fn(u8) -> bool {
    |b: u8| is_space(b)
}

pub open spec fn digits() -> spec_fn(u8) -> bool {
    |b: u8| is_digit(b)
}

pub open spec fn hex_digits() -> spec_fn(u8) -> bool {
    |b: u8| is_hex_digit(b)
}

/// The length of the run of bytes from `i` that satisfy `p`.
pub open spec fn run_len(s: Seq<u8>, i: int, p: spec_fn(u8) -> bool) -> nat
    decreases s.len() - i,
{
    if 0 <= i < s.len() && p(s[i]) {
        1 + run_len(s, i + 1, p)
    } else {
        0
    }
}

/// The number written by the `n` decimal digits from `i`.
pub open spec fn dec_value(s: Seq<u8>, i: int, n: int) -> int
    decreases n,
{
    if n <= 0 {
        0
    } else {
        dec_value(s, i, n - 1) * 10 + (s[i + n - 1] - 0x30)
    }
}

/// The number written by the `n` hexadecimal digits from `i`.
pub open spec fn hex_value(s: Seq<u8>, i: int, n: int) -> int
    decreases n,
{
    if n <= 0 {
        0
    } else {
        hex_value(s, i, n - 1) * 16 + hex_digit_value(s[i + n - 1])
    }
}

/// How many bytes a keyword with the long form `long` (tried first) or the
/// short form `short` takes at the start of `s`; 0 when neither is there.
pub open spec fn keyword_len(s: Seq<u8>, long: Seq<u8>, short: Seq<u8>) -> int {
    if s.len() >= long.len() && s.take(long.len() as int) == long {
        long.len() as int
    } else if s.len() >= short.len() && s.take(short.len() as int) == short {
        short.len() as int
    } else {
        0
    }
}

pub open spec fn step_words() -> (Seq<u8>, Seq<u8>) {
    (seq![0x73u8, 0x74, 0x65, 0x70], seq![0x73u8])
}

pub open spec fn mem_words() -> (Seq<u8>, Seq<u8>) {
    (seq![0x6Du8, 0x65, 0x6D], seq![0x6Du8])
}

pub open spec fn cont_words() -> (Seq<u8>, Seq<u8>) {
    (seq![0x63u8, 0x6F, 0x6E, 0x74], seq![0x63u8])
}

pub open spec fn exit_words() -> (Seq<u8>, Seq<u8>) {
    (seq![0x65u8, 0x78, 0x69, 0x74], seq![0x65u8])
}

pub open spec fn quit_words() -> (Seq<u8>, Seq<u8>) {
    (seq![0x71u8, 0x75, 0x69, 0x74], seq![0x71u8])
}

/// A decimal argument at `i`: spaces, then digits worth at most 0xFFFF; the
/// value and where it ends.
pub open spec fn dec_arg(s: Seq<u8>, i: int) -> Option<(u16, int)> {
    let sp = run_len(s, i, spaces()) as int;
    let n = run_len(s, i + sp, digits()) as int;
    if sp > 0 && n > 0 && dec_value(s, i + sp, n) <= 0xFFFF {
        Some((dec_value(s, i + sp, n) as u16, i + sp + n))
    } else {
        None
    }
}

/// A hexadecimal argument at `i`: spaces, an optional `0x`, then hex digits
/// worth at most 0xFFFF; the value and where it ends.
pub open spec fn hex_arg(s: Seq<u8>, i: int) -> Option<(u16, int)> {
    let sp = run_len(s, i, spaces()) as int;
    let j = i + sp;
    let k = if byte_is(s, j, 0x30) && byte_is(s, j + 1, 0x78) { j + 2 } else { j };
    let n = run_len(s, k, hex_digits()) as int;
    if sp > 0 && n > 0 && hex_value(s, k, n) <= 0xFFFF {
        Some((hex_value(s, k, n) as u16, k + n))
    } else {
        None
    }
}

/// The command that a prefix of `s` spells, and its length; the forms are
/// tried in the order step, mem, cont, exit.
pub open spec fn command_prefix(s: Seq<u8>) -> Option<(Command, int)> {
    let ks = keyword_len(s, step_words().0, step_words().1);
    let km = keyword_len(s, mem_words().0, mem_words().1);
    let kc = keyword_len(s, cont_words().0, cont_words().1);
    let ke = keyword_len(s, exit_words().0, exit_words().1);
    let kq = keyword_len(s, quit_words().0, quit_words().1);
    if ks > 0 {
        match dec_arg(s, ks) {
            Some((n, end)) => Some((Command::Step(n), end)),
            None => Some((Command::Step(1), ks)),
        }
    } else if km > 0 && hex_arg(s, km) is Some {
        let (a, end1) = hex_arg(s, km)->0;
        match hex_arg(s, end1) {
            Some((b, end2)) => Some((Command::MemRng(a, b), end2)),
            None => Some((Command::Mem(a), end1)),
        }
    } else if kc > 0 {
        Some((Command::Cont, kc))
    } else if ke > 0 {
        Some((Command::Exit, ke))
    } else if kq > 0 {
        Some((Command::Exit, kq))
    } else {
        None
    }
}

/// The command that the whole of `s` spells, if any.
pub open spec fn command_spec(s: Seq<u8>) -> Option<Command> {
    match command_prefix(s) {
        Some((c, end)) => if end == s.len() { Some(c) } else { None },
        None => None,
    }
}

/// A number written in decimal digits is not negative.
proof fn lemma_dec_value_nonneg(s: Seq<u8>, i: int, n: int)
    requires
        forall|k: int| i <= k < i + n ==> is_digit(#[trigger] s[k]),
    ensures
        dec_value(s, i, n) >= 0,
    decreases n,
{
    if n > 0 {
        lemma_dec_value_nonneg(s, i, n - 1);
    }
}

/// Each extra digit at least keeps the value: digits never make a number
/// smaller.
proof fn lemma_dec_value_grows(s: Seq<u8>, i: int, m: int, n: int)
    requires
        0 <= m <= n,
        forall|k: int| i <= k < i + n ==> is_digit(#[trigger] s[k]),
    ensures
        dec_value(s, i, m) <= dec_value(s, i, n),
    decreases n,
{
    if m < n {
        lemma_dec_value_grows(s, i, m, n - 1);
        lemma_dec_value_nonneg(s, i, n - 1);
    }
}

proof fn lemma_hex_value_nonneg(s: Seq<u8>, i: int, n: int)
    requires
        forall|k: int| i <= k < i + n ==> is_hex_digit(#[trigger] s[k]),
    ensures
        hex_value(s, i, n) >= 0,
    decreases n,
{
    if n > 0 {
        lemma_hex_value_nonneg(s, i, n - 1);
    }
}

proof fn lemma_hex_value_grows(s: Seq<u8>, i: int, m: int, n: int)
    requires
        0 <= m <= n,
        forall|k: int| i <= k < i + n ==> is_hex_digit(#[trigger] s[k]),
    ensures
        hex_value(s, i, m) <= hex_value(s, i, n),
    decreases n,
{
    if m < n {
        lemma_hex_value_grows(s, i, m, n - 1);
        lemma_hex_value_nonneg(s, i, n - 1);
    }
}

/// The end of the run of spaces from `i`.
fn skip_spaces(s: &[u8], i: usize) -> (j: usize)
    requires
        i <= s@.len(),
    ensures
        j == i + run_len(s@, i as int, spaces()),
        j <= s@.len(),
{
    let mut j: usize = i;
    while j < s.len() && (s[j] == 0x20 || s[j] == 0x09)
        invariant
            i <= j <= s@.len(),
            run_len(s@, i as int, spaces()) == (j - i) + run_len(s@, j as int, spaces()),
        decreases s@.len() - j,
    {
        j = j + 1;
    }
    j
}

/// A decimal argument at `i`.
fn parse_dec_arg(s: &[u8], i: usize) -> (r: Option<(u16, usize)>)
    requires
        i <= s@.len(),
    ensures
        match (r, dec_arg(s@, i as int)) {
            (Some((v, e)), Some((sv, se))) => v == sv && e == se && e <= s@.len(),
            (None, None) => true,
            _ => false,
        },
{
    let j: usize = skip_spaces(s, i);
    if j == i {
        return None;
    }
    let mut k: usize = j;
    let mut v: u32 = 0;
    while k < s.len() && 0x30 <= s[k] && s[k] <= 0x39
        invariant
            i < j <= k <= s@.len(),
            j == i + run_len(s@, i as int, spaces()),
            run_len(s@, j as int, digits()) == (k - j) + run_len(s@, k as int, digits()),
            forall|x: int| j <= x < k ==> is_digit(#[trigger] s@[x]),
            v == dec_value(s@, j as int, k - j),
            v <= 0xFFFF,
        decreases s@.len() - k,
    {
        let nv: u32 = v * 10 + (s[k] - 0x30) as u32;
        k = k + 1;
        assert(nv == dec_value(s@, j as int, k - j));
        if nv > 0xFFFF {
            proof {
                let n = run_len(s@, j as int, digits()) as int;
                assert forall|x: int| j <= x < j + n implies is_digit(#[trigger] s@[x]) by {
                    lemma_run_len_holds(s@, j as int, digits(), x);
                }
                lemma_dec_value_grows(s@, j as int, k - j, n);
            }
            return None;
        }
        v = nv;
    }
    if k == j {
        return None;
    }
    Some((v as u16, k))
}

/// A hexadecimal argument at `i`.
fn parse_hex_arg(s: &[u8], i: usize) -> (r: Option<(u16, usize)>)
    requires
        i <= s@.len(),
    ensures
        match (r, hex_arg(s@, i as int)) {
            (Some((v, e)), Some((sv, se))) => v == sv && e == se && e <= s@.len(),
            (None, None) => true,
            _ => false,
        },
{
    let j: usize = skip_spaces(s, i);
    if j == i {
        return None;
    }
    let start: usize = if s.len() - j >= 2 && s[j] == 0x30 && s[j + 1] == 0x78 { j + 2 } else { j };
    let mut k: usize = start;
    let mut v: u32 = 0;
    while k < s.len() && ((0x30 <= s[k] && s[k] <= 0x39) || (0x41 <= s[k] && s[k] <= 0x46) || (0x61 <= s[k] && s[k] <= 0x66))
        invariant
            i < j <= start <= k <= s@.len(),
            j == i + run_len(s@, i as int, spaces()),
            start == (if byte_is(s@, j as int, 0x30) && byte_is(s@, j + 1, 0x78) { j + 2 } else { j as int }),
            run_len(s@, start as int, hex_digits()) == (k - start) + run_len(s@, k as int, hex_digits()),
            forall|x: int| start <= x < k ==> is_hex_digit(#[trigger] s@[x]),
            v == hex_value(s@, start as int, k - start),
            v <= 0xFFFF,
        decreases s@.len() - k,
    {
        let c: u8 = s[k];
        let d: u32 = if c <= 0x39 { (c - 0x30) as u32 } else if c <= 0x46 { (c - 0x41 + 10) as u32 } else { (c - 0x61 + 10) as u32 };
        let nv: u32 = v * 16 + d;
        k = k + 1;
        assert(nv == hex_value(s@, start as int, k - start));
        if nv > 0xFFFF {
            proof {
                let n = run_len(s@, start as int, hex_digits()) as int;
                assert forall|x: int| start <= x < start + n implies is_hex_digit(#[trigger] s@[x]) by {
                    lemma_run_len_holds(s@, start as int, hex_digits(), x);
                }
                lemma_hex_value_grows(s@, start as int, k - start, n);
            }
            return None;
        }
        v = nv;
    }
    if k == start {
        return None;
    }
    Some((v as u16, k))
}

/// Every byte of a run satisfies the predicate.
proof fn lemma_run_len_holds(s: Seq<u8>, i: int, p: spec_fn(u8) -> bool, x: int)
    requires
        i <= x < i + run_len(s, i, p),
    ensures
        0 <= x < s.len(),
        p(s[x]),
    decreases s.len() - i,
{
    if x > i {
        lemma_run_len_holds(s, i + 1, p, x);
    }
}

/// The length of the keyword `long`/`short` at the start of `s`.
fn keyword(s: &[u8], long: &[u8], short: &[u8]) -> (n: usize)
    ensures
        n == keyword_len(s@, long@, short@),
{
    if has_prefix(s, long) {
        long.len()
    } else if has_prefix(s, short) {
        short.len()
    } else {
        0
    }
}

fn has_prefix(s: &[u8], t: &[u8]) -> (b: bool)
    ensures
        b == (s@.len() >= t@.len() && s@.take(t@.len() as int) == t@),
{
    if s.len() < t.len() {
        return false;
    }
    let mut k: usize = 0;
    while k < t.len()
        invariant
            k <= t@.len() <= s@.len(),
            forall|x: int| 0 <= x < k ==> s@[x] == t@[x],
        decreases t@.len() - k,
    {
        if s[k] != t[k] {
            assert(s@.take(t@.len() as int)[k as int] != t@[k as int]);
            return false;
        }
        k = k + 1;
    }
    assert(s@.take(t@.len() as int) =~= t@);
    true
}

impl Command {
    /// Reads a command from a whole line (without its line break).
    pub fn parse(s: &[u8]) -> (r: Option<Command>)
        ensures
            r == command_spec(s@),
    {
        let step_l: [u8; 4] = [0x73, 0x74, 0x65, 0x70];
        let step_s: [u8; 1] = [0x73];
        let mem_l: [u8; 3] = [0x6D, 0x65, 0x6D];
        let mem_s: [u8; 1] = [0x6D];
        let cont_l: [u8; 4] = [0x63, 0x6F, 0x6E, 0x74];
        let cont_s: [u8; 1] = [0x63];
        let exit_l: [u8; 4] = [0x65, 0x78, 0x69, 0x74];
        let exit_s: [u8; 1] = [0x65];
        let quit_l: [u8; 4] = [0x71, 0x75, 0x69, 0x74];
        let quit_s: [u8; 1] = [0x71];
        assert(step_l@ =~= step_words().0 && step_s@ =~= step_words().1);
        assert(mem_l@ =~= mem_words().0 && mem_s@ =~= mem_words().1);
        assert(cont_l@ =~= cont_words().0 && cont_s@ =~= cont_words().1);
        assert(exit_l@ =~= exit_words().0 && exit_s@ =~= exit_words().1);
        assert(quit_l@ =~= quit_words().0 && quit_s@ =~= quit_words().1);
        let ks: usize = keyword(s, &step_l, &step_s);
        let km: usize = keyword(s, &mem_l, &mem_s);
        let kc: usize = keyword(s, &cont_l, &cont_s);
        let ke: usize = keyword(s, &exit_l, &exit_s);
        let kq: usize = keyword(s, &quit_l, &quit_s);
        let found: Option<(Command, usize)> = if ks > 0 {
            match parse_dec_arg(s, ks) {
                Some((n, end)) => Some((Command::Step(n), end)),
                None => Some((Command::Step(1), ks)),
            }
        } else if km > 0 && parse_hex_arg(s, km).is_some() {
            match parse_hex_arg(s, km) {
                Some((a, end1)) => match parse_hex_arg(s, end1) {
                    Some((b, end2)) => Some((Command::MemRng(a, b), end2)),
                    None => Some((Command::Mem(a), end1)),
                },
                None => None,
            }
        } else if kc > 0 {
            Some((Command::Cont, kc))
        } else if ke > 0 {
            Some((Command::Exit, ke))
        } else if kq > 0 {
            Some((Command::Exit, kq))
        } else {
            None
        };
        match found {
            Some((c, end)) => if end == s.len() { Some(c) } else { None },
            None => None,
        }
    }
}

} // verus!
