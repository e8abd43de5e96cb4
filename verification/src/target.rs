//! The compilation target: architecture, word size and operating system as
//! the user picks them, and the target triple handed to `cargo build`.

use vstd::prelude::*;
use crate::text::same_text;

verus! {

/// The parts of the target triple after the adjustments the tool makes:
/// a 32-bit x86 target is named `i686-…` with no separate architecture
/// part, and an ARM Windows target uses the `gnullvm` environment.
pub open spec fn resolved_parts(arch: Seq<char>, bit: Seq<char>, os: Seq<char>) -> (
    Seq<char>,
    Seq<char>,
    Seq<char>,
) {
    let is_x86_32 = arch == "x86_"@ && bit == "32-"@;
    let arch1 = if is_x86_32 { ""@ } else { arch };
    let bit1 = if is_x86_32 { "i686-"@ } else { bit };
    let os1 = if arch1 == "aarch"@ && os == "pc-windows-gnu"@ {
        "pc-windows-gnullvm"@
    } else {
        os
    };
    (arch1, bit1, os1)
}

/// The target triple: the resolved parts written one after the other.
pub open spec fn target_triple_of(arch: Seq<char>, bit: Seq<char>, os: Seq<char>) -> Seq<char> {
    let p = resolved_parts(arch, bit, os);
    p.0 + p.1 + p.2
}

/// Applies the target adjustments to the chosen architecture, word size and
/// operating system parts.
pub fn resolve_parts(arch: &str, bit: &str, os: &str) -> (r: (String, String, String))
    ensures
        (r.0@, r.1@, r.2@) == resolved_parts(arch@, bit@, os@),
{
    let mut arch1 = arch.to_owned();
    let mut bit1 = bit.to_owned();
    let mut os1 = os.to_owned();
    if same_text(arch, "x86_") && same_text(bit, "32-") {
        bit1 = "i686-".to_owned();
        arch1 = "".to_owned();
    }
    if same_text(arch1.as_str(), "aarch") && same_text(os, "pc-windows-gnu") {
        os1 = "pc-windows-gnullvm".to_owned();
    }
    (arch1, bit1, os1)
}

/// The target triple for the chosen parts, such as `x86_64-unknown-linux-gnu`.
pub fn target_triple(arch: &str, bit: &str, os: &str) -> (r: String)
    ensures
        r@ == target_triple_of(arch@, bit@, os@),
{
    let (a, b, o) = resolve_parts(arch, bit, os);
    let mut r = a;
    r.append(b.as_str());
    r.append(o.as_str());
    r
}

/// Resolving parts that are already resolved changes nothing.
pub proof fn lemma_resolve_idempotent(arch: Seq<char>, bit: Seq<char>, os: Seq<char>)
    ensures
        ({
            let p = resolved_parts(arch, bit, os);
            resolved_parts(p.0, p.1, p.2) == p
        }),
{
    reveal_strlit("x86_");
    reveal_strlit("");
    reveal_strlit("pc-windows-gnu");
    reveal_strlit("pc-windows-gnullvm");
    let p = resolved_parts(arch, bit, os);
    assert(p.0 != "x86_"@ || p.1 != "32-"@) by {
        if arch == "x86_"@ && bit == "32-"@ {
            assert(p.0.len() == 0);
        }
    }
    assert(p.2 != "pc-windows-gnu"@ || !(p.0 == "aarch"@)) by {
        if p.0 == "aarch"@ && os == "pc-windows-gnu"@ {
            assert(p.2.len() != "pc-windows-gnu"@.len());
        }
    }
}

/// The triple is the three parts written one after the other, except that
/// x86 with `32-` is written `i686-` followed by the system, and ARM with
/// `pc-windows-gnu` uses `pc-windows-gnullvm`.
pub proof fn lemma_triple_cases(arch: Seq<char>, bit: Seq<char>, os: Seq<char>)
    ensures
        arch == "x86_"@ && bit == "32-"@ ==> target_triple_of(arch, bit, os) == "i686-"@ + os,
        arch == "aarch"@ && os == "pc-windows-gnu"@ ==> target_triple_of(arch, bit, os) == "aarch"@
            + bit + "pc-windows-gnullvm"@,
        !(arch == "x86_"@ && bit == "32-"@) && !(arch == "aarch"@ && os == "pc-windows-gnu"@)
            ==> target_triple_of(arch, bit, os) == arch + bit + os,
{
    reveal_strlit("x86_");
    reveal_strlit("aarch");
    reveal_strlit("");
    if arch == "x86_"@ && bit == "32-"@ {
        assert(""@ != "aarch"@) by {
            assert(""@.len() == 0);
        }
        assert(""@ + "i686-"@ =~= "i686-"@);
        assert(""@ + "i686-"@ + os =~= "i686-"@ + os);
    }
}

} // verus!
