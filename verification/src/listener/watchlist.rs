//! Per-chain launch / graduation targets, and which of them to listen to.

use vstd::prelude::*;

verus! {

/// A deployer and the method it calls.
#[derive(Clone, Debug)]
pub struct TargetConfig {
    pub deployer: String,
    pub method_id: String,
}

/// Which watchers run on a chain.
#[derive(Clone, Copy, Debug)]
pub struct ChainConfig {
    pub listen_launch: bool,
    pub listen_graduation: bool,
}

impl Default for ChainConfig {
    /// Neither watcher.
    fn default() -> (r: ChainConfig)
        ensures
            !r.listen_launch,
            !r.listen_graduation,
    {
        ChainConfig { listen_launch: false, listen_graduation: false }
    }
}

/// One chain's endpoints and targets.
#[derive(Clone, Debug)]
pub struct Chain {
    pub wss_rpc_url: String,
    pub https_rpc_url: String,
    pub launch: Option<TargetConfig>,
    pub graduation: Option<TargetConfig>,
    pub config: ChainConfig,
}

/// Every configured chain, by name.
#[derive(Clone, Debug)]
pub struct Watchlist {
    pub chains: Vec<(String, Chain)>,
}

/// `c` listening exactly to the targets it configures.
pub open spec fn with_configured_watchers(c: Chain) -> Chain {
    Chain {
        config: ChainConfig {
            listen_launch: c.launch is Some,
            listen_graduation: c.graduation is Some,
        },
        ..c
    }
}

impl Watchlist {
    /// Turns on the launch watcher of every chain with a launch target, and
    /// the graduation watcher of every chain with a graduation target.
    pub fn enable_configured_watchers(&mut self)
        ensures
            final(self).chains@.len() == old(self).chains@.len(),
            forall|i: int|
                0 <= i < final(self).chains@.len() ==> #[trigger] final(self).chains@[i] == (
                    old(self).chains@[i].0,
                    with_configured_watchers(old(self).chains@[i].1),
                ),
    {
        let ghost before = self.chains@;
        let mut i: usize = 0;
        while i < self.chains.len()
            invariant
                i <= self.chains@.len(),
                self.chains@.len() == before.len(),
                before == old(self).chains@,
                forall|k: int|
                    0 <= k < i ==> #[trigger] self.chains@[k] == (
                        before[k].0,
                        with_configured_watchers(before[k].1),
                    ),
                forall|k: int| i <= k < self.chains@.len() ==> #[trigger] self.chains@[k] == before[k],
            decreases self.chains@.len() - i,
        {
            let launch = self.chains[i].1.launch.is_some();
            let graduation = self.chains[i].1.graduation.is_some();
            let entry = &mut self.chains[i];
            entry.1.config = ChainConfig { listen_launch: launch, listen_graduation: graduation };
            i = i + 1;
        }
    }
}

} // verus!
