use vstd::prelude::*;
use vstd::string::*;

use crate::multipart::opt_view;

verus! {

/// Region used for a new bucket when neither the command nor the client names one.
pub open spec fn default_region() -> Seq<char> {
    seq!['u', 's', '-', 'w', 'e', 's', 't', '-', '2']
}

/// The region a new bucket is created in: the one given with the command,
/// else the client's region, else `default_region()`.
pub open spec fn chosen_region(
    command: Option<Seq<char>>,
    client: Option<Seq<char>>,
) -> Seq<char> {
    match command {
        Some(r) => r,
        None => match client {
            Some(r) => r,
            None => default_region(),
        },
    }
}

/// Picks the location constraint for a bucket to be created.
pub fn bucket_region(command: Option<String>, client: Option<String>) -> (r: String)
    ensures
        r@ == chosen_region(opt_view(command), opt_view(client)),
{
    match command {
        Some(r) => r,
        None => match client {
            Some(r) => r,
            None => {
                let d = String::from_str("us-west-2");
                proof {
                    reveal_strlit("us-west-2");
                    assert(d@ =~= default_region());
                }
                d
            },
        },
    }
}

} // verus!
