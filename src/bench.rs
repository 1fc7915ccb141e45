//! Benchmark bookkeeping: the arithmetic workload that the sum suite runs, and
//! the results that the benchmark collects for each guest.
use vstd::prelude::*;

verus! {

/// `1 + 2 + ... + n`, reduced to its low 16 bits.
pub open spec fn masked_sum(n: u32) -> u32 {
    ((n * (n + 1) / 2) % 65536) as u32
}

/// The sum workload: every partial sum is kept to its low 16 bits.
pub fn sum(n: u32) -> (r: u32)
    ensures
        r == masked_sum(n),
    decreases n,
{
    if n == 0 {
        0
    } else {
        let prev = sum(n - 1);
        proof {
            let m = n as int;
            assert(m * (m + 1) / 2 == m + (m - 1) * m / 2) by (nonlinear_arith)
                requires
                    m >= 1,
            ;
            vstd::arithmetic::div_mod::lemma_add_mod_noop_right(m, (m - 1) * m / 2, 65536);
        }
        ((n as u64 + prev as u64) % 65536) as u32
    }
}

pub open spec fn is_sorted(s: Seq<u128>) -> bool {
    forall|i: int, j: int| 0 <= i <= j < s.len() ==> s[i] <= s[j]
}

/// The median of `times`: the middle element of its ascending order (the
/// upper one of the two middles where the count is even).
pub open spec fn is_median(times: Seq<u128>, m: u128) -> bool {
    exists|p: Seq<u128>|
        #![trigger is_sorted(p)]
        is_sorted(p) && p.to_multiset() == times.to_multiset() && m == p[(p.len() / 2) as int]
}

/// Relies on `slice::sort`: the elements end up in ascending order, the same
/// elements as before.
#[verifier::external_body]
fn sort_ascending(v: &mut Vec<u128>)
    ensures
        is_sorted(final(v)@),
        final(v)@.to_multiset() == old(v)@.to_multiset(),
{
    v.sort();
}

fn median_of(times: &Vec<u128>) -> (r: u128)
    requires
        times.len() > 0,
    ensures
        is_median(times@, r),
{
    let mut sorted = times.clone();
    assert(sorted@ =~= times@);
    sort_ascending(&mut sorted);
    proof {
        sorted@.to_multiset_ensures();
        times@.to_multiset_ensures();
    }
    let r = sorted[sorted.len() / 2];
    assert(is_sorted(sorted@));
    r
}

/// What one run of the sum workload gave.
pub struct BenchResult {
    pub guest_name: String,
    pub input: u32,
    pub output: u32,
    pub user_cycles: u64,
    pub total_cycles: Option<u64>,
    pub paging_cycles: Option<u64>,
    pub segments: usize,
    pub wall_times_ms: Vec<u128>,
}

impl BenchResult {
    pub fn median_wall_ms(&self) -> (r: u128)
        requires
            self.wall_times_ms.len() > 0,
        ensures
            is_median(self.wall_times_ms@, r),
    {
        median_of(&self.wall_times_ms)
    }
}

/// What one run of the state transition gave: the output bytes are an encoded
/// state or a one-byte marker, empty where the run crashed.
pub struct Eth2BenchResult {
    pub guest_name: String,
    pub num_validators: u32,
    pub output_bytes: Vec<u8>,
    pub user_cycles: u64,
    pub total_cycles: Option<u64>,
    pub paging_cycles: Option<u64>,
    pub segments: usize,
    pub wall_times_ms: Vec<u128>,
}

/// What an output says: a crash, a state, or which marker.
pub open spec fn output_description(out: Seq<u8>) -> Seq<char> {
    if out.len() == 0 {
        "CRASHED"@
    } else if out.len() != 1 {
        "OK"@
    } else if out[0] == 0xFF {
        "State decode error"@
    } else if out[0] == 0xFE {
        "Block decode error"@
    } else if out[0] == 0xFD {
        "STF error"@
    } else {
        "Unknown error"@
    }
}

impl Eth2BenchResult {
    pub fn median_wall_ms(&self) -> (r: u128)
        requires
            self.wall_times_ms.len() > 0,
        ensures
            is_median(self.wall_times_ms@, r),
    {
        median_of(&self.wall_times_ms)
    }

    /// The run crashed or gave a marker rather than a state.
    pub fn is_error(&self) -> (r: bool)
        ensures
            r == (self.output_bytes@.len() <= 1),
    {
        self.output_bytes.len() == 0 || self.output_bytes.len() == 1
    }

    pub fn error_description(&self) -> (r: &'static str)
        ensures
            r@ == output_description(self.output_bytes@),
    {
        proof {
            reveal_strlit("CRASHED");
            reveal_strlit("OK");
            reveal_strlit("State decode error");
            reveal_strlit("Block decode error");
            reveal_strlit("STF error");
            reveal_strlit("Unknown error");
        }
        if self.output_bytes.len() == 0 {
            return "CRASHED";
        }
        if self.output_bytes.len() != 1 {
            return "OK";
        }
        let b = self.output_bytes[0];
        if b == 0xFF {
            "State decode error"
        } else if b == 0xFE {
            "Block decode error"
        } else if b == 0xFD {
            "STF error"
        } else {
            "Unknown error"
        }
    }
}

// ── Number formatting ────────────────────────────
pub open spec fn digit_char(d: int) -> char {
    (48 + d) as char
}

/// The decimal digits of `n`, most significant first.
pub open spec fn decimal(n: nat) -> Seq<char>
    decreases n,
{
    if n < 10 {
        seq![digit_char(n as int)]
    } else {
        decimal(n / 10).push(digit_char((n % 10) as int))
    }
}

/// `s` with a comma before each group of three characters, counted from the right.
pub open spec fn grouped(s: Seq<char>) -> Seq<char>
    decreases s.len(),
{
    if s.len() <= 3 {
        s
    } else {
        grouped(s.subrange(0, s.len() - 3)) + seq![','] + s.subrange(s.len() - 3, s.len() as int)
    }
}

fn decimal_digits(n: u64) -> (r: Vec<char>)
    ensures
        r@ == decimal(n as nat),
    decreases n,
{
    let d = (n % 10) as u8;
    let c = (48 + d) as char;
    if n < 10 {
        let mut r: Vec<char> = Vec::new();
        r.push(c);
        assert(r@ =~= seq![c]);
        r
    } else {
        let mut r = decimal_digits(n / 10);
        r.push(c);
        r
    }
}

fn group_digits(s: &Vec<char>, len: usize) -> (r: Vec<char>)
    requires
        len <= s.len(),
    ensures
        r@ == grouped(s@.subrange(0, len as int)),
    decreases len,
{
    let ghost t = s@.subrange(0, len as int);
    if len <= 3 {
        let mut r: Vec<char> = Vec::new();
        let mut i: usize = 0;
        while i < len
            invariant
                i <= len <= s.len(),
                r@ == s@.subrange(0, i as int),
            decreases len - i,
        {
            r.push(s[i]);
            assert(r@ =~= s@.subrange(0, i + 1));
            i = i + 1;
        }
        r
    } else {
        let mut r = group_digits(s, len - 3);
        r.push(',');
        r.push(s[len - 3]);
        r.push(s[len - 2]);
        r.push(s[len - 1]);
        assert(t.subrange(0, t.len() - 3) =~= s@.subrange(0, len - 3));
        assert(r@ =~= grouped(t));
        r
    }
}

/// Relies on `String`'s `FromIterator<char>`: the string holds the characters in order.
#[verifier::external_body]
fn string_of(chars: &Vec<char>) -> (r: String)
    ensures
        r@ == chars@,
{
    chars.iter().collect()
}

/// `n` in decimal with commas between groups of three digits (`1,234,567`).
pub fn format_number(n: u64) -> (r: String)
    ensures
        r@ == grouped(decimal(n as nat)),
{
    let digits = decimal_digits(n);
    let r = group_digits(&digits, digits.len());
    assert(digits@.subrange(0, digits.len() as int) =~= digits@);
    string_of(&r)
}

} // verus!
