//! Where the Azure endpoints of a region are.
use vstd::prelude::*;

use crate::text::{contains, lowercase, occurs_at, starts_with, to_lowercase};

verus! {

/// The host suffix of the Azure cloud that a region belongs to.
pub open spec fn host_suffix(region: Seq<char>) -> Seq<char> {
    if exists|i: int| occurs_at(region, "china"@, i) {
        ".azure.cn"@
    } else if occurs_at(lowercase(region), "usgov"@, 0) {
        ".azure.us"@
    } else {
        ".microsoft.com"@
    }
}

/// The host suffix of the Azure cloud that `region` belongs to: the China
/// cloud for regions that name it, the US Government cloud for regions that
/// start with `usgov`, the public cloud otherwise.
pub fn get_azure_hostname_from_region(region: &str) -> (r: String)
    ensures
        r@ == host_suffix(region@),
{
    if contains(region, "china") {
        String::from_str(".azure.cn")
    } else {
        let lower = to_lowercase(region);
        if starts_with(lower.as_str(), "usgov") {
            String::from_str(".azure.us")
        } else {
            String::from_str(".microsoft.com")
        }
    }
}

/// Which cloud a region's host lies in: a region whose name holds `china`
/// is in the China cloud (`.azure.cn`); any other region whose name starts
/// with `usgov`, in any case, is in the US Government cloud (`.azure.us`);
/// every other region is in the public cloud (`.microsoft.com`).
pub proof fn lemma_host_suffix_clouds(region: Seq<char>)
    ensures
        (exists|i: int| occurs_at(region, "china"@, i)) ==> host_suffix(region) == ".azure.cn"@,
        !(exists|i: int| occurs_at(region, "china"@, i)) && lowercase(region).len() >= 5
            && lowercase(region).take(5) == "usgov"@ ==> host_suffix(region) == ".azure.us"@,
        !(exists|i: int| occurs_at(region, "china"@, i)) && !(lowercase(region).len() >= 5
            && lowercase(region).take(5) == "usgov"@) ==> host_suffix(region)
            == ".microsoft.com"@,
{
    reveal_strlit("usgov");
    assert(occurs_at(lowercase(region), "usgov"@, 0) <==> (lowercase(region).len() >= 5
        && lowercase(region).take(5) == "usgov"@)) by {
        if lowercase(region).len() >= 5 {
            assert(lowercase(region).subrange(0, 5) =~= lowercase(region).take(5));
        }
    }
}

} // verus!
