//! Startup banner lines. Whether to print them (stdout is a terminal) is
//! decided by the caller.

use vstd::prelude::*;
use vstd::string::*;
use crate::consumer::style::{bold_cyan, dim, painted};
use crate::text::{concat3, owned};

verus! {

/// Line `k` (0 to 5) of the ASCII-art logo.
pub open spec fn art_line(k: int) -> Seq<char> {
    if k == 0 {
        r"                _     _____             _                "@
    } else if k == 1 {
        r"__      _____  | |__ |___ / ___ _ __ (_)_ __  ___ _ __  "@
    } else if k == 2 {
        r"\ \ /\ / / _ \ | '_ \  |_ \/ __| '_ \| | '_ \/ -_) '__| "@
    } else if k == 3 {
        r" \ V  V /  __/ | |_) |___) \__ \ | | | | |_) \___|_|    "@
    } else if k == 4 {
        r"  \_/\_/ \___| |_.__/|____/|___/_| |_|_| .__/           "@
    } else {
        r"                                       |_|              "@
    }
}

fn art(k: usize) -> (r: &'static str)
    requires
        k < 6,
    ensures
        r@ == art_line(k as int),
{
    if k == 0 {
        r"                _     _____             _                "
    } else if k == 1 {
        r"__      _____  | |__ |___ / ___ _ __ (_)_ __  ___ _ __  "
    } else if k == 2 {
        r"\ \ /\ / / _ \ | '_ \  |_ \/ __| '_ \| | '_ \/ -_) '__| "
    } else if k == 3 {
        r" \ V  V /  __/ | |_) |___) \__ \ | | | | |_) \___|_|    "
    } else if k == 4 {
        r"  \_/\_/ \___| |_.__/|____/|___/_| |_|_| .__/           "
    } else {
        r"                                       |_|              "
    }
}

/// The banner, line by line: a blank line, the logo in bold cyan, the
/// dimmed version tag, a blank line.
pub fn lines(version: &str, on: bool) -> (r: Vec<String>)
    ensures
        r@.len() == 9,
        r@[0]@ == Seq::<char>::empty(),
        forall|k: int| 0 <= k < 6 ==> #[trigger] r@[k + 1]@ == painted("1;36"@, art_line(k), on),
        r@[7]@ == "  "@ + painted(
            "2"@,
            "v"@ + version@ + " · on-chain launch & graduation watcher"@,
            on,
        ),
        r@[8]@ == Seq::<char>::empty(),
{
    let mut out: Vec<String> = Vec::new();
    out.push(String::new());
    let mut k: usize = 0;
    while k < 6
        invariant
            k <= 6,
            out@.len() == k + 1,
            out@[0]@ == Seq::<char>::empty(),
            forall|j: int| 0 <= j < k ==> #[trigger] out@[j + 1]@ == painted("1;36"@, art_line(j), on),
        decreases 6 - k,
    {
        out.push(bold_cyan(art(k), on));
        k = k + 1;
    }
    let tag = concat3("v", version, " · on-chain launch & graduation watcher");
    let d = dim(tag.as_str(), on);
    let mut last = owned("  ");
    last.append(d.as_str());
    out.push(last);
    out.push(String::new());
    out
}

} // verus!
