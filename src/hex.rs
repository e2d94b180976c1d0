//! Lower-case hexadecimal text of byte strings, in groups split by ':'.

use vstd::prelude::*;
use vstd::string::{StrSliceExecFns, StringExecFns};

verus! {

/// The sixteen digits, in order.
pub open spec fn digits() -> Seq<char> {
    seq!['0', '1', '2', '3', '4', '5', '6', '7', '8', '9', 'a', 'b', 'c', 'd', 'e', 'f']
}

/// The two digits of a byte, high nibble first.
pub open spec fn hex_pair(b: u8) -> Seq<char> {
    seq![digits()[(b / 16) as int], digits()[(b % 16) as int]]
}

/// The digits of `b`, two per byte, with ':' before every byte whose
/// index is a positive multiple of `group`.
pub open spec fn hex_grouped(b: Seq<u8>, group: nat) -> Seq<char>
    decreases b.len(),
{
    if b.len() == 0 {
        Seq::empty()
    } else {
        let k = b.len() - 1;
        let sep = if k > 0 && group > 0 && k % (group as int) == 0 {
            seq![':']
        } else {
            Seq::empty()
        };
        hex_grouped(b.drop_last(), group) + sep + hex_pair(b.last())
    }
}

/// The digit for `n`, as a one-character string.
fn hex_digit(n: u8) -> (r: &'static str)
    requires
        n < 16,
    ensures
        r@ == seq![digits()[n as int]],
{
    let table = "0123456789abcdef";
    proof {
        reveal_strlit("0123456789abcdef");
        assert(table@ =~= digits());
    }
    let r = table.substring_ascii(n as usize, n as usize + 1);
    assert(r@ =~= seq![digits()[n as int]]);
    r
}

/// Hexadecimal text of `bytes`, split by ':' every `group` bytes.
pub fn hex_text(bytes: &[u8], group: usize) -> (r: String)
    requires
        group > 0,
    ensures
        r@ == hex_grouped(bytes@, group as nat),
{
    let mut r = String::from_str("");
    proof {
        reveal_strlit("");
    }
    let colon = ":";
    proof {
        reveal_strlit(":");
    }
    let mut i: usize = 0;
    while i < bytes.len()
        invariant
            group > 0,
            i <= bytes@.len(),
            colon@ == seq![':'],
            r@ == hex_grouped(bytes@.take(i as int), group as nat),
        decreases bytes@.len() - i,
    {
        let ghost before = r@;
        let b = bytes[i];
        if i > 0 && i % group == 0 {
            r.append(colon);
        }
        r.append(hex_digit(b / 16));
        r.append(hex_digit(b % 16));
        proof {
            let t = bytes@.take(i + 1);
            assert(t.drop_last() =~= bytes@.take(i as int));
            assert(t.last() == b);
        }
        i = i + 1;
    }
    assert(bytes@.take(bytes@.len() as int) =~= bytes@);
    r
}

} // verus!
