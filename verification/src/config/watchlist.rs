//! The watchlist: the chains to watch and the contracts on each.

use vstd::prelude::*;
use vstd::string::*;
use crate::text::{
    has_prefix, is_whitespace, lemma_trim_commutes, lemma_trim_end_concat, lemma_trim_end_ends,
    strip_prefix, trim, trim_end, trim_start, trim_str,
};

verus! {

/// What a watched contract produces, and which downstream logic applies.
#[derive(Clone, Copy, Debug, PartialEq, Eq, Structural)]
pub enum TargetKind {
    Launch,
    Graduation,
}

/// The lowercase name of a kind, as it appears in topics and payloads.
pub open spec fn kind_text(k: TargetKind) -> Seq<char> {
    match k {
        TargetKind::Launch => "launch"@,
        TargetKind::Graduation => "graduation"@,
    }
}

impl TargetKind {
    pub fn as_str(self) -> (r: &'static str)
        ensures
            r@ == kind_text(self),
    {
        match self {
            TargetKind::Launch => "launch",
            TargetKind::Graduation => "graduation",
        }
    }
}

/// The canonical event signature for a configured `event` string: trimmed,
/// and without a leading `event ` keyword.
pub open spec fn signature_text(event: Seq<char>) -> Seq<char> {
    let t = trim(event);
    if has_prefix(t, "event "@) {
        trim(t.subrange(6, t.len() as int))
    } else {
        t
    }
}

/// The `event` keyword is optional: a signature written with a leading
/// `event ` names the same filter as without it (for a signature that is not
/// blank and does not itself begin with the keyword).
pub proof fn lemma_event_keyword_optional(s: Seq<char>)
    requires
        trim(s).len() > 0,
        !has_prefix(trim(s), "event "@),
    ensures
        signature_text("event "@ + s) == signature_text(s),
{
    reveal_strlit("event ");
    let k = "event "@;
    let x = k + s;
    assert(!is_whitespace(x[0]));
    assert(trim_start(x) == x);
    lemma_trim_commutes(s);
    assert(trim_end(s).len() > 0) by {
        if trim_end(s).len() == 0 {
            assert(trim_start(trim_end(s)) == trim_end(s));
        }
    }
    lemma_trim_end_concat(k, s);
    let t = trim(x);
    assert(t == k + trim_end(s));
    assert(t.subrange(0, 6) =~= k);
    assert(t.subrange(6, t.len() as int) =~= trim_end(s));
    lemma_trim_commutes(trim_end(s));
    lemma_trim_end_ends(trim_start(s));
}

/// One contract to watch on a chain. Several targets may share a `kind`
/// (coexisting factory / pool versions).
#[derive(Clone, Debug)]
pub struct Target {
    pub kind: TargetKind,
    /// Human label for logs, e.g. `"PonsFamily V2"`.
    pub name: String,
    pub address: String,
    /// Event signature to filter on, e.g. `PoolGraduated(address,uint256,uint256,uint256)`.
    pub event: String,
}

impl Target {
    /// Canonical signature for a log filter: no `event` keyword, no stray
    /// whitespace (both common when pasting from Solidity).
    pub fn event_signature(&self) -> (r: &str)
        ensures
            r@ == signature_text(self.event@),
    {
        let t = trim_str(self.event.as_str());
        proof {
            reveal_strlit("event ");
        }
        match strip_prefix(t, "event ") {
            Some(rest) => trim_str(rest),
            None => t,
        }
    }
}

/// RPC endpoints and targets of one chain.
#[derive(Clone, Debug)]
pub struct Chain {
    pub wss_rpc_url: String,
    pub https_rpc_url: String,
    pub targets: Vec<Target>,
}

/// Every configured chain, keyed by its name.
#[derive(Clone, Debug)]
pub struct Watchlist {
    pub chains: Vec<(String, Chain)>,
}

impl Watchlist {
    /// No chain name occurs twice.
    pub open spec fn wf(&self) -> bool {
        forall|i: int, j: int|
            0 <= i < j < self.chains@.len() ==> self.chains@[i].0@ != self.chains@[j].0@
    }

    /// An empty watchlist.
    pub fn new() -> (w: Watchlist)
        ensures
            w.wf(),
            w.chains@.len() == 0,
    {
        Watchlist { chains: Vec::new() }
    }

    /// Adds a chain under `name`, replacing the entry of that name if any.
    pub fn insert(&mut self, name: String, chain: Chain)
        requires
            old(self).wf(),
        ensures
            final(self).wf(),
            (exists|k: int|
                0 <= k < old(self).chains@.len() && old(self).chains@[k].0@ == name@
                    && final(self).chains@ == old(self).chains@.update(k, (name, chain))) || ((
            forall|k: int| 0 <= k < old(self).chains@.len() ==> old(self).chains@[k].0@ != name@)
                && final(self).chains@ == old(self).chains@.push((name, chain))),
    {
        let ghost before = self.chains@;
        let ghost entry = (name, chain);
        let mut i: usize = 0;
        while i < self.chains.len()
            invariant
                self.chains@ == before,
                before == old(self).chains@,
                entry == (name, chain),
                old(self).wf(),
                i <= self.chains@.len(),
                forall|k: int| 0 <= k < i ==> self.chains@[k].0@ != name@,
            decreases self.chains@.len() - i,
        {
            if self.chains[i].0 == name {
                self.chains.set(i, (name, chain));
                assert(self.chains@ =~= before.update(i as int, entry));
                assert(self.wf());
                return;
            }
            i = i + 1;
        }
        self.chains.push((name, chain));
        assert(self.chains@ == before.push(entry));
        assert(self.wf());
    }

    /// The configured chain names.
    pub fn chain_names(&self) -> (r: Vec<String>)
        ensures
            r@.len() == self.chains@.len(),
            forall|i: int| 0 <= i < r@.len() ==> r@[i]@ == self.chains@[i].0@,
    {
        let mut names: Vec<String> = Vec::new();
        let mut i: usize = 0;
        while i < self.chains.len()
            invariant
                i <= self.chains@.len(),
                names@.len() == i,
                forall|k: int| 0 <= k < i ==> names@[k]@ == self.chains@[k].0@,
            decreases self.chains@.len() - i,
        {
            names.push(self.chains[i].0.clone());
            i = i + 1;
        }
        names
    }
}

} // verus!
