//! The shader template assembler: pure concatenation of the fixed
//! boilerplate blocks and the generated sections, in the slot order of the
//! target effect-file grammar. No validation is done on the fragments; the
//! output is byte-exact concatenation.

use vstd::prelude::*;

verus! {

/// Concatenates the effect file: the declaration header, the generated
/// sampler section, the vertex-shader boilerplate, the generated vertex
/// body, the pixel-shader boilerplate, the generated pixel body, and the
/// closing boilerplate.
pub fn assemble(
    header: &str,
    sampler_code: &str,
    vs_header: &str,
    vs_code: &str,
    ps_header: &str,
    ps_code: &str,
    footer: &str,
) -> (r: String)
    ensures
        r@ == header@ + sampler_code@ + vs_header@ + vs_code@ + ps_header@ + ps_code@
            + footer@,
{
    let mut r = String::new();
    r.append(header);
    r.append(sampler_code);
    r.append(vs_header);
    r.append(vs_code);
    r.append(ps_header);
    r.append(ps_code);
    r.append(footer);
    proof {
        assert(r@ =~= header@ + sampler_code@ + vs_header@ + vs_code@ + ps_header@
            + ps_code@ + footer@);
    }
    r
}

} // verus!
