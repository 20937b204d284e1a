//! The command-line usage message.
//!
//! The driver reads its arguments as raw bytes; the usage line is
//! computed here over those bytes and written out by the driver.

use vstd::prelude::*;

verus! {

/// The bytes of `"Usage: "`.
pub open spec fn usage_prefix_spec() -> Seq<u8> {
    seq![85u8, 115u8, 97u8, 103u8, 101u8, 58u8, 32u8]
}

/// The bytes of `" <file>\n"`.
pub open spec fn usage_suffix_spec() -> Seq<u8> {
    seq![32u8, 60u8, 102u8, 105u8, 108u8, 101u8, 62u8, 10u8]
}

/// The usage line for an executable name: `Usage: <exe> <file>` and a
/// newline, as bytes.
pub fn print_usage(exe: &Vec<u8>) -> (r: Vec<u8>)
    ensures
        r@ == usage_prefix_spec() + exe@ + usage_suffix_spec(),
{
    let mut out: Vec<u8> = Vec::new();
    out.push(85);
    out.push(115);
    out.push(97);
    out.push(103);
    out.push(101);
    out.push(58);
    out.push(32);
    proof {
        assert(out@ =~= usage_prefix_spec());
    }
    let n = exe.len();
    let mut i: usize = 0;
    while i < n
        invariant
            n == exe@.len(),
            0 <= i <= n,
            out@ == usage_prefix_spec() + exe@.take(i as int),
        decreases n - i,
    {
        out.push(exe[i]);
        proof {
            assert(out@ =~= usage_prefix_spec() + exe@.take(i as int + 1));
        }
        i = i + 1;
    }
    proof {
        assert(exe@.take(n as int) =~= exe@);
    }
    out.push(32);
    out.push(60);
    out.push(102);
    out.push(105);
    out.push(108);
    out.push(101);
    out.push(62);
    out.push(10);
    proof {
        assert(out@ =~= usage_prefix_spec() + exe@ + usage_suffix_spec());
    }
    out
}

} // verus!
