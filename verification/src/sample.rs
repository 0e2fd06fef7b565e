//! What describes one sample besides its payload.
use vstd::prelude::*;

verus! {

/// Whether a sample brings a value or takes one away.
#[derive(Clone, Copy, Debug, PartialEq, Eq, Structural)]
pub enum SampleKind {
    Put,
    Delete,
}

impl Default for SampleKind {
    fn default() -> (r: Self)
        ensures
            r == SampleKind::Put,
    {
        SampleKind::Put
    }
}

/// Which subscribers a publication may reach, seen from the session that
/// publishes.
#[derive(Clone, Copy, Debug, PartialEq, Eq, Structural)]
pub enum Locality {
    /// Those of the same session.
    SessionLocal,
    /// Those of other sessions.
    Remote,
    /// All of them.
    Any,
}

impl Default for Locality {
    fn default() -> (r: Self)
        ensures
            r == Locality::Any,
    {
        Locality::Any
    }
}

/// The identifier of an entity across the whole network: that of its session
/// and its own number in it.
#[derive(Clone, Copy, Debug, PartialEq, Eq, Structural)]
pub struct EntityGlobalId {
    pub zid: u128,
    pub eid: u32,
}

/// Where a sample first came from, as far as it is known.
#[derive(Clone, Copy, Debug, PartialEq, Eq, Structural)]
pub struct SourceInfo {
    /// The entity that produced the sample.
    pub source_id: Option<EntityGlobalId>,
    /// The number of the sample among those of that entity.
    pub source_sn: Option<u32>,
}

impl SourceInfo {
    /// No information on the source.
    pub fn empty() -> (r: Self)
        ensures
            r == (SourceInfo { source_id: None, source_sn: None }),
    {
        SourceInfo { source_id: None, source_sn: None }
    }

    /// Whether nothing is known of the source.
    pub fn is_empty(&self) -> (b: bool)
        ensures
            b <==> self.source_id is None && self.source_sn is None,
    {
        self.source_id.is_none() && self.source_sn.is_none()
    }
}

} // verus!
