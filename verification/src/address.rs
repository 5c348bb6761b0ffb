//! Upstream addresses in their text form, `host:port`.

use vstd::prelude::*;

use crate::text::chars_of;

verus! {

/// The largest port number.
pub const MAX_PORT: u32 = 65535;

pub open spec fn is_digit(c: char) -> bool {
    '0' <= c && c <= '9'
}

/// The decimal digit for `d`, which is below ten.
pub open spec fn digit_char(d: nat) -> char {
    if d == 0 {
        '0'
    } else if d == 1 {
        '1'
    } else if d == 2 {
        '2'
    } else if d == 3 {
        '3'
    } else if d == 4 {
        '4'
    } else if d == 5 {
        '5'
    } else if d == 6 {
        '6'
    } else if d == 7 {
        '7'
    } else if d == 8 {
        '8'
    } else {
        '9'
    }
}

/// The number that the digit `c` stands for.
pub open spec fn digit_value(c: char) -> nat {
    if c == '1' {
        1
    } else if c == '2' {
        2
    } else if c == '3' {
        3
    } else if c == '4' {
        4
    } else if c == '5' {
        5
    } else if c == '6' {
        6
    } else if c == '7' {
        7
    } else if c == '8' {
        8
    } else if c == '9' {
        9
    } else {
        0
    }
}

/// The decimal numeral of `n`, without leading zeros.
pub open spec fn decimal(n: nat) -> Seq<char>
    decreases n,
{
    if n < 10 {
        seq![digit_char(n)]
    } else {
        decimal(n / 10).push(digit_char(n % 10))
    }
}

/// The number that a run of decimal digits stands for.
pub open spec fn digits_value(digits: Seq<char>) -> nat
    decreases digits.len(),
{
    if digits.len() == 0 {
        0
    } else {
        digits_value(digits.drop_last()) * 10 + digit_value(digits.last())
    }
}

/// The address of the backend at `ip` and `port`.
pub open spec fn upstream_address(ip: Seq<char>, port: u16) -> Seq<char> {
    ip + seq![':'] + decimal(port as nat)
}

/// Whether `address` has a host part, then `:` at index `colon`, then a port
/// in decimal digits.
pub open spec fn splits_at(address: Seq<char>, colon: int) -> bool {
    &&& 0 < colon < address.len() - 1
    &&& address[colon] == ':'
    &&& forall|k: int| colon < k < address.len() ==> is_digit(#[trigger] address[k])
    &&& digits_value(address.subrange(colon + 1, address.len() as int)) <= MAX_PORT
}

/// Whether `address` is written as `host:port`: a host part that is not
/// empty, a colon, and a port of one or more decimal digits that is at most
/// 65535. The host part may hold colons itself. Whether the host can be
/// reached, or even resolved, is not a question of form.
pub open spec fn well_formed_address(address: Seq<char>) -> bool {
    exists|colon: int| splits_at(address, colon)
}

/// The value of a run of digits does not shrink when more digits follow.
proof fn lemma_value_grows(text: Seq<char>, from: int, mid: int, to: int)
    requires
        0 <= from <= mid <= to <= text.len(),
    ensures
        digits_value(text.subrange(from, mid)) <= digits_value(text.subrange(from, to)),
    decreases to - mid,
{
    if mid < to {
        lemma_value_grows(text, from, mid, to - 1);
        assert(text.subrange(from, to).drop_last() =~= text.subrange(from, to - 1));
    }
}

/// A numeral written by `decimal` is made of digits and stands for the
/// number it was written for.
proof fn lemma_decimal_reads_back(n: nat)
    ensures
        decimal(n).len() >= 1,
        forall|k: int| 0 <= k < decimal(n).len() ==> is_digit(#[trigger] decimal(n)[k]),
        digits_value(decimal(n)) == n,
    decreases n,
{
    if n < 10 {
        assert(decimal(n).drop_last() =~= Seq::<char>::empty());
        assert(digits_value(decimal(n).drop_last()) == 0);
    } else {
        lemma_decimal_reads_back(n / 10);
        assert(decimal(n).drop_last() =~= decimal(n / 10));
    }
}

/// An address written from a host part that is not empty and a port is well
/// formed.
pub proof fn lemma_written_address_is_well_formed(ip: Seq<char>, port: u16)
    requires
        ip.len() > 0,
    ensures
        well_formed_address(upstream_address(ip, port)),
{
    let address = upstream_address(ip, port);
    let colon = ip.len() as int;
    lemma_decimal_reads_back(port as nat);
    assert(address.subrange(colon + 1, address.len() as int) =~= decimal(port as nat));
    assert forall|k: int| colon < k < address.len() implies is_digit(#[trigger] address[k]) by {
        assert(address[k] == decimal(port as nat)[k - colon - 1]);
    }
    assert(splits_at(address, colon));
}

fn is_digit_char(c: char) -> (digit: bool)
    ensures
        digit == is_digit(c),
{
    c >= '0' && c <= '9'
}

fn digit_of(c: char) -> (value: u32)
    requires
        is_digit(c),
    ensures
        value == digit_value(c),
        value <= 9,
{
    if c == '1' {
        1
    } else if c == '2' {
        2
    } else if c == '3' {
        3
    } else if c == '4' {
        4
    } else if c == '5' {
        5
    } else if c == '6' {
        6
    } else if c == '7' {
        7
    } else if c == '8' {
        8
    } else if c == '9' {
        9
    } else {
        0
    }
}

/// Decides `well_formed_address` for a string.
pub fn is_well_formed(address: &str) -> (ok: bool)
    ensures
        ok == well_formed_address(address@),
{
    let a: Vec<char> = chars_of(address);
    let n: usize = a.len();
    let mut start: usize = n;
    while start > 0 && is_digit_char(a[start - 1])
        invariant
            start <= n,
            n == a.len(),
            forall|k: int| start <= k < n ==> is_digit(#[trigger] a@[k]),
        decreases start,
    {
        start -= 1;
    }
    if start == n || start < 2 || a[start - 1] != ':' {
        assert forall|colon: int| !splits_at(a@, colon) by {
            if splits_at(a@, colon) {
                assert(is_digit(a@[n - 1]));
                if colon < start - 1 {
                    assert(is_digit(a@[start - 1]));
                }
            }
        }
        return false;
    }
    let mut value: u32 = 0;
    let mut k: usize = start;
    assert(a@.subrange(start as int, start as int) =~= Seq::<char>::empty());
    while k < n
        invariant
            2 <= start <= k <= n,
            n == a.len(),
            a@ == address@,
            a@[start - 1] == ':',
            forall|q: int| start <= q < n ==> is_digit(#[trigger] a@[q]),
            value == digits_value(a@.subrange(start as int, k as int)),
            value <= MAX_PORT,
        decreases n - k,
    {
        let d: u32 = digit_of(a[k]);
        value = value * 10 + d;
        assert(a@.subrange(start as int, k + 1).drop_last() =~= a@.subrange(
            start as int,
            k as int,
        ));
        k += 1;
        if value > MAX_PORT {
            proof {
                lemma_value_grows(a@, start as int, k as int, n as int);
            }
            assert forall|colon: int| !splits_at(a@, colon) by {
                if splits_at(a@, colon) {
                    if colon < start - 1 {
                        assert(is_digit(a@[start - 1]));
                    }
                    assert(colon == start - 1);
                }
            }
            return false;
        }
    }
    assert(splits_at(a@, start - 1));
    true
}

fn digit_text(d: u16) -> (text: &'static str)
    requires
        d < 10,
    ensures
        text@ == seq![digit_char(d as nat)],
{
    proof {
        reveal_strlit("0");
        reveal_strlit("1");
        reveal_strlit("2");
        reveal_strlit("3");
        reveal_strlit("4");
        reveal_strlit("5");
        reveal_strlit("6");
        reveal_strlit("7");
        reveal_strlit("8");
        reveal_strlit("9");
    }
    let text: &'static str = if d == 0 {
        "0"
    } else if d == 1 {
        "1"
    } else if d == 2 {
        "2"
    } else if d == 3 {
        "3"
    } else if d == 4 {
        "4"
    } else if d == 5 {
        "5"
    } else if d == 6 {
        "6"
    } else if d == 7 {
        "7"
    } else if d == 8 {
        "8"
    } else {
        "9"
    };
    assert(text@ =~= seq![digit_char(d as nat)]);
    text
}

fn push_decimal(out: &mut String, n: u16)
    ensures
        final(out)@ == old(out)@ + decimal(n as nat),
    decreases n,
{
    if n >= 10 {
        push_decimal(out, n / 10);
    }
    out.append(digit_text(n % 10));
    assert(out@ =~= old(out)@ + decimal(n as nat));
}

/// Writes the address of the backend at `ip` and `port`.
pub fn format_upstream(ip: &str, port: u16) -> (address: String)
    ensures
        address@ == upstream_address(ip@, port),
{
    let mut address: String = ip.to_owned();
    proof {
        reveal_strlit(":");
    }
    address.append(":");
    assert(address@ =~= ip@ + seq![':']);
    push_decimal(&mut address, port);
    address
}

} // verus!
