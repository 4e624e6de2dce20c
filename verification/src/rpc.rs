//! The remote-call mode of an exported method.

use crate::text::text_eq;
use vstd::prelude::*;

verus! {

/// How an exported method may be called from a networked peer.
#[derive(Clone, Copy, PartialEq, Eq, Structural, PartialOrd, Ord, Hash, Debug)]
pub enum RpcMode {
    Disabled,
    Remote,
    RemoteSync,
    Master,
    Puppet,
    MasterSync,
    PuppetSync,
}

impl RpcMode {
    /// The word by which a directive selects this mode.
    pub open spec fn spec_keyword(self) -> Seq<char> {
        match self {
            RpcMode::Disabled => "disabled"@,
            RpcMode::Remote => "remote"@,
            RpcMode::RemoteSync => "remote_sync"@,
            RpcMode::Master => "master"@,
            RpcMode::Puppet => "puppet"@,
            RpcMode::MasterSync => "master_sync"@,
            RpcMode::PuppetSync => "puppet_sync"@,
        }
    }

    /// The mode that a word selects, if it selects one. Matching is exact.
    pub open spec fn spec_parse(s: Seq<char>) -> Option<RpcMode> {
        if s == "remote"@ {
            Some(RpcMode::Remote)
        } else if s == "remote_sync"@ {
            Some(RpcMode::RemoteSync)
        } else if s == "master"@ {
            Some(RpcMode::Master)
        } else if s == "puppet"@ {
            Some(RpcMode::Puppet)
        } else if s == "disabled"@ {
            Some(RpcMode::Disabled)
        } else if s == "master_sync"@ {
            Some(RpcMode::MasterSync)
        } else if s == "puppet_sync"@ {
            Some(RpcMode::PuppetSync)
        } else {
            None
        }
    }

    /// The name of this mode's variant, as registration code writes it.
    pub open spec fn spec_variant(self) -> Seq<char> {
        match self {
            RpcMode::Disabled => "Disabled"@,
            RpcMode::Remote => "Remote"@,
            RpcMode::RemoteSync => "RemoteSync"@,
            RpcMode::Master => "Master"@,
            RpcMode::Puppet => "Puppet"@,
            RpcMode::MasterSync => "MasterSync"@,
            RpcMode::PuppetSync => "PuppetSync"@,
        }
    }

    /// Reads a mode from the word that a directive gives for it.
    pub fn parse(s: &str) -> (mode: Option<Self>)
        ensures
            mode == Self::spec_parse(s@),
    {
        if text_eq(s, "remote") {
            Some(RpcMode::Remote)
        } else if text_eq(s, "remote_sync") {
            Some(RpcMode::RemoteSync)
        } else if text_eq(s, "master") {
            Some(RpcMode::Master)
        } else if text_eq(s, "puppet") {
            Some(RpcMode::Puppet)
        } else if text_eq(s, "disabled") {
            Some(RpcMode::Disabled)
        } else if text_eq(s, "master_sync") {
            Some(RpcMode::MasterSync)
        } else if text_eq(s, "puppet_sync") {
            Some(RpcMode::PuppetSync)
        } else {
            None
        }
    }

    /// The word by which a directive selects this mode.
    pub fn keyword(&self) -> (word: &'static str)
        ensures
            word@ == self.spec_keyword(),
    {
        match self {
            RpcMode::Disabled => "disabled",
            RpcMode::Remote => "remote",
            RpcMode::RemoteSync => "remote_sync",
            RpcMode::Master => "master",
            RpcMode::Puppet => "puppet",
            RpcMode::MasterSync => "master_sync",
            RpcMode::PuppetSync => "puppet_sync",
        }
    }

    /// The name of this mode's variant, as registration code writes it.
    pub fn variant(&self) -> (name: &'static str)
        ensures
            name@ == self.spec_variant(),
    {
        match self {
            RpcMode::Disabled => "Disabled",
            RpcMode::Remote => "Remote",
            RpcMode::RemoteSync => "RemoteSync",
            RpcMode::Master => "Master",
            RpcMode::Puppet => "Puppet",
            RpcMode::MasterSync => "MasterSync",
            RpcMode::PuppetSync => "PuppetSync",
        }
    }
}

impl Default for RpcMode {
    fn default() -> (mode: Self)
        ensures
            mode == RpcMode::Disabled,
    {
        RpcMode::Disabled
    }
}

/// The seven mode words, revealed character by character.
pub proof fn lemma_keywords_revealed()
    ensures
        "disabled"@ == seq!['d', 'i', 's', 'a', 'b', 'l', 'e', 'd'],
        "remote"@ == seq!['r', 'e', 'm', 'o', 't', 'e'],
        "remote_sync"@ == seq!['r', 'e', 'm', 'o', 't', 'e', '_', 's', 'y', 'n', 'c'],
        "master"@ == seq!['m', 'a', 's', 't', 'e', 'r'],
        "puppet"@ == seq!['p', 'u', 'p', 'p', 'e', 't'],
        "master_sync"@ == seq!['m', 'a', 's', 't', 'e', 'r', '_', 's', 'y', 'n', 'c'],
        "puppet_sync"@ == seq!['p', 'u', 'p', 'p', 'e', 't', '_', 's', 'y', 'n', 'c'],
{
    reveal_strlit("disabled");
    reveal_strlit("remote");
    reveal_strlit("remote_sync");
    reveal_strlit("master");
    reveal_strlit("puppet");
    reveal_strlit("master_sync");
    reveal_strlit("puppet_sync");
    assert("disabled"@ =~= seq!['d', 'i', 's', 'a', 'b', 'l', 'e', 'd']);
    assert("remote"@ =~= seq!['r', 'e', 'm', 'o', 't', 'e']);
    assert("remote_sync"@ =~= seq!['r', 'e', 'm', 'o', 't', 'e', '_', 's', 'y', 'n', 'c']);
    assert("master"@ =~= seq!['m', 'a', 's', 't', 'e', 'r']);
    assert("puppet"@ =~= seq!['p', 'u', 'p', 'p', 'e', 't']);
    assert("master_sync"@ =~= seq!['m', 'a', 's', 't', 'e', 'r', '_', 's', 'y', 'n', 'c']);
    assert("puppet_sync"@ =~= seq!['p', 'u', 'p', 'p', 'e', 't', '_', 's', 'y', 'n', 'c']);
}

/// Reading the word of a mode gives that mode back, and no other: each of
/// the seven words selects exactly its own mode.
pub proof fn lemma_keyword_round_trip(mode: RpcMode)
    ensures
        RpcMode::spec_parse(mode.spec_keyword()) == Some(mode),
{
    lemma_keywords_revealed();
    let d = "disabled"@;
    let r = "remote"@;
    let rs = "remote_sync"@;
    let m = "master"@;
    let p = "puppet"@;
    let ms = "master_sync"@;
    let ps = "puppet_sync"@;
    assert(d.len() == 8 && r.len() == 6 && m.len() == 6 && p.len() == 6);
    assert(rs.len() == 11 && ms.len() == 11 && ps.len() == 11);
    assert(r[0] == 'r' && m[0] == 'm' && p[0] == 'p');
    assert(rs[0] == 'r' && ms[0] == 'm' && ps[0] == 'p');
}

/// A word selects a mode only if it is that mode's own word.
pub proof fn lemma_parse_is_keyword(s: Seq<char>, mode: RpcMode)
    requires
        RpcMode::spec_parse(s) == Some(mode),
    ensures
        s == mode.spec_keyword(),
{
}

/// Different modes are written as different variants.
pub proof fn lemma_variant_injective(a: RpcMode, b: RpcMode)
    requires
        a.spec_variant() == b.spec_variant(),
    ensures
        a == b,
{
    reveal_strlit("Disabled");
    reveal_strlit("Remote");
    reveal_strlit("RemoteSync");
    reveal_strlit("Master");
    reveal_strlit("Puppet");
    reveal_strlit("MasterSync");
    reveal_strlit("PuppetSync");
    let d = "Disabled"@;
    let r = "Remote"@;
    let rs = "RemoteSync"@;
    let m = "Master"@;
    let p = "Puppet"@;
    let ms = "MasterSync"@;
    let ps = "PuppetSync"@;
    assert(d.len() == 8 && r.len() == 6 && m.len() == 6 && p.len() == 6);
    assert(rs.len() == 10 && ms.len() == 10 && ps.len() == 10);
    assert(r[0] == 'R' && m[0] == 'M' && p[0] == 'P');
    assert(rs[0] == 'R' && ms[0] == 'M' && ps[0] == 'P');
}

} // verus!
