//! Deterministic block hash labels.
//!
//! A candidate block at height `h` from proposer `p` is identified by the
//! string `h{h}-p{p}`. The engine treats the label purely as an equality
//! key; this module renders it and pins down its exact character sequence.

use vstd::prelude::*;
use vstd::string::StringExecFns;

verus! {

/// The character for a single decimal digit.
pub open spec fn digit_char(d: int) -> char {
    if d == 0 {
        '0'
    } else if d == 1 {
        '1'
    } else if d == 2 {
        '2'
    } else if d == 3 {
        '3'
    } else if d == 4 {
        '4'
    } else if d == 5 {
        '5'
    } else if d == 6 {
        '6'
    } else if d == 7 {
        '7'
    } else if d == 8 {
        '8'
    } else {
        '9'
    }
}

/// The decimal representation of `n`, most significant digit first,
/// with no leading zeros (a single `'0'` for zero itself).
pub open spec fn dec_rep(n: nat) -> Seq<char>
    decreases n,
{
    if n < 10 {
        seq![digit_char(n as int)]
    } else {
        dec_rep(n / 10).push(digit_char((n % 10) as int))
    }
}

/// The full label `h{height}-p{proposer}` as a character sequence.
pub open spec fn bid_hash_label(height: u64, proposer: u16) -> Seq<char> {
    seq!['h'] + dec_rep(height as nat) + seq!['-', 'p'] + dec_rep(proposer as nat)
}

fn digit_str(d: u64) -> (r: &'static str)
    requires
        d < 10,
    ensures
        r@ == seq![digit_char(d as int)],
{
    let r: &'static str = if d == 0 {
        "0"
    } else if d == 1 {
        "1"
    } else if d == 2 {
        "2"
    } else if d == 3 {
        "3"
    } else if d == 4 {
        "4"
    } else if d == 5 {
        "5"
    } else if d == 6 {
        "6"
    } else if d == 7 {
        "7"
    } else if d == 8 {
        "8"
    } else {
        "9"
    };
    proof {
        reveal_strlit("0");
        reveal_strlit("1");
        reveal_strlit("2");
        reveal_strlit("3");
        reveal_strlit("4");
        reveal_strlit("5");
        reveal_strlit("6");
        reveal_strlit("7");
        reveal_strlit("8");
        reveal_strlit("9");
        assert(r@ =~= seq![digit_char(d as int)]);
    }
    r
}

/// Renders `n` in decimal.
pub fn u64_dec_str(n: u64) -> (r: String)
    ensures
        r@ == dec_rep(n as nat),
    decreases n,
{
    if n < 10 {
        String::from_str(digit_str(n))
    } else {
        let mut r = u64_dec_str(n / 10);
        r.append(digit_str(n % 10));
        proof {
            assert(r@ =~= dec_rep(n as nat));
        }
        r
    }
}

/// Renders the label `h{height}-p{proposer}` that names the block proposed
/// at `height` by `proposer`.
pub fn bid_hash(height: u64, proposer: u16) -> (r: String)
    ensures
        r@ == bid_hash_label(height, proposer),
{
    let mut r = String::from_str("h");
    let hs = u64_dec_str(height);
    r.append(hs.as_str());
    r.append("-p");
    let ps = u64_dec_str(proposer as u64);
    r.append(ps.as_str());
    proof {
        reveal_strlit("h");
        reveal_strlit("-p");
        assert(("h")@ =~= seq!['h']);
        assert(("-p")@ =~= seq!['-', 'p']);
        assert(r@ =~= bid_hash_label(height, proposer));
    }
    r
}

} // verus!
