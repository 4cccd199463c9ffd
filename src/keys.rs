use vstd::prelude::*;
use vstd::string::StringExecFns;

verus! {

/// The character of one decimal digit.
pub open spec fn digit_char(d: nat) -> char {
    if d == 0 { '0' }
    else if d == 1 { '1' }
    else if d == 2 { '2' }
    else if d == 3 { '3' }
    else if d == 4 { '4' }
    else if d == 5 { '5' }
    else if d == 6 { '6' }
    else if d == 7 { '7' }
    else if d == 8 { '8' }
    else { '9' }
}

/// The decimal text of a natural number, without sign or leading zeros.
pub open spec fn decimal(n: nat) -> Seq<char>
    decreases n,
{
    if n < 10 {
        seq![digit_char(n)]
    } else {
        decimal(n / 10) + seq![digit_char(n % 10)]
    }
}

fn digit_str(d: u64) -> (r: &'static str)
    requires
        d < 10,
    ensures
        r@ == seq![digit_char(d as nat)],
{
    proof {
        reveal_strlit("0");
        reveal_strlit("1");
        reveal_strlit("2");
        reveal_strlit("3");
        reveal_strlit("4");
        reveal_strlit("5");
        reveal_strlit("6");
        reveal_strlit("7");
        reveal_strlit("8");
        reveal_strlit("9");
    }
    if d == 0 { "0" }
    else if d == 1 { "1" }
    else if d == 2 { "2" }
    else if d == 3 { "3" }
    else if d == 4 { "4" }
    else if d == 5 { "5" }
    else if d == 6 { "6" }
    else if d == 7 { "7" }
    else if d == 8 { "8" }
    else { "9" }
}

/// Encodes a key number as the text stored in the key column.
pub fn key_text(n: u64) -> (r: String)
    ensures
        r@ == decimal(n as nat),
{
    let mut m: u64 = n / 10;
    let mut r: String = String::from_str(digit_str(n % 10));
    while m > 0
        invariant
            m == 0 ==> decimal(n as nat) == r@,
            m > 0 ==> decimal(n as nat) == decimal(m as nat) + r@,
        decreases m,
    {
        let head = String::from_str(digit_str(m % 10));
        let ghost prev = r@;
        proof {
            assert(decimal(m as nat) == if m < 10 {
                seq![digit_char(m as nat)]
            } else {
                decimal((m / 10) as nat) + seq![digit_char((m % 10) as nat)]
            });
            if m < 10 {
                assert(m % 10 == m);
            }
        }
        r = head.concat(r.as_str());
        proof {
            if m >= 10 {
                assert(decimal(m as nat) + prev =~= decimal((m / 10) as nat) + r@);
            } else {
                assert(decimal(m as nat) + prev =~= r@);
            }
        }
        m = m / 10;
    }
    r
}

/// A key cursor that wraps modulo `modulus` before each use, so that the keys
/// it hands out run `0, 1, ..., modulus - 1, 0, 1, ...`.
pub struct KeyCursor {
    pub counter: u64,
    pub modulus: u64,
}

impl KeyCursor {
    pub open spec fn wf(&self) -> bool {
        self.modulus >= 1 && self.counter <= self.modulus
    }

    /// The key that the next call of `next_key` hands out.
    pub open spec fn upcoming(&self) -> nat {
        (self.counter % self.modulus) as nat
    }

    /// A cursor whose first key is zero.
    pub fn new(modulus: u64) -> (r: KeyCursor)
        requires
            modulus >= 1,
        ensures
            r.wf(),
            r.modulus == modulus,
            r.upcoming() == 0,
    {
        KeyCursor { counter: 0, modulus }
    }

    /// Wraps the counter, hands out the wrapped value, then advances.
    pub fn next_key(&mut self) -> (k: u64)
        requires
            old(self).wf(),
        ensures
            final(self).wf(),
            final(self).modulus == old(self).modulus,
            k as nat == old(self).upcoming(),
            k < old(self).modulus,
            final(self).upcoming() == (old(self).upcoming() + 1) % (old(self).modulus as nat),
    {
        let k = self.counter % self.modulus;
        self.counter = k + 1;
        k
    }
}

} // verus!

verus! {

/// The key a fresh cursor with modulus `m` hands out on its `i`-th call,
/// following `next_key` one call at a time.
pub open spec fn key_after(m: nat, i: nat) -> nat
    decreases i,
{
    if i == 0 {
        0
    } else {
        (key_after(m, (i - 1) as nat) + 1) % m
    }
}

/// Keys wrap before use: the `i`-th key of a fresh cursor is `i mod m`, so a
/// cursor with modulus three hands out `0, 1, 2, 0, 1, 2, ...`.
pub proof fn lemma_keys_cycle(m: nat, i: nat)
    requires
        m >= 1,
    ensures
        key_after(m, i) == i % m,
    decreases i,
{
    if i > 0 {
        lemma_keys_cycle(m, (i - 1) as nat);
        let p = (i - 1) as int;
        vstd::arithmetic::div_mod::lemma_add_mod_noop(p, 1, m as int);
        if m == 1 {
            assert(i % 1 == 0);
            assert(key_after(m, i) == 0);
        } else {
            vstd::arithmetic::div_mod::lemma_small_mod(1, m);
            assert(key_after(m, i) == ((p % m as int) + 1) % (m as int));
        }
    } else {
        vstd::arithmetic::div_mod::lemma_small_mod(0, m);
    }
}

} // verus!
