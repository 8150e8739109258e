//! Shared shape of the service's URLs: a fixed prefix, one numeric path
//! segment, and a fixed suffix.

use vstd::prelude::*;

use crate::digits::dec_str;
use crate::digits::fmt_u64;

verus! {

/// `prefix` + decimal `id` + `suffix`, exactly.
pub(crate) fn id_path(prefix: &'static str, id: usize, suffix: &'static str) -> (r: String)
    ensures
        r@ == prefix@ + dec_str(id as nat) + suffix@,
{
    let mut url = String::from_str(prefix);
    let n = fmt_u64(id as u64);
    url.append(n.as_str());
    url.append(suffix);
    assert(url@ =~= prefix@ + dec_str(id as nat) + suffix@);
    url
}

} // verus!
