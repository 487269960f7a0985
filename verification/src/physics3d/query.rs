use vstd::prelude::*;
use crate::physics3d::{CollisionGroups, EntityHandle};

verus! {

/// Filter for spatial queries: collision groups, kinds of bodies to leave
/// out, and entities to leave out.
#[derive(Debug, Clone)]
pub struct QueryFilter {
    /// Collision groups
    pub groups: CollisionGroups,
    /// Leave out sensors
    pub exclude_sensors: bool,
    /// Leave out dynamic bodies
    pub exclude_dynamic: bool,
    /// Leave out static bodies
    pub exclude_static: bool,
    /// Leave out fixed bodies
    pub exclude_fixed: bool,
    /// Leave out kinematic bodies
    pub exclude_kinematic: bool,
    /// Entities to leave out
    pub exclude_entities: Vec<EntityHandle>,
}

/// The filter that `QueryFilter::new` builds: every group, nothing left out.
pub open spec fn is_open_filter(f: QueryFilter) -> bool {
    &&& f.groups == CollisionGroups { memberships: 0xFFFF_FFFF, filter: 0xFFFF_FFFF }
    &&& !f.exclude_sensors
    &&& !f.exclude_dynamic
    &&& !f.exclude_static
    &&& !f.exclude_fixed
    &&& !f.exclude_kinematic
    &&& f.exclude_entities@ == Seq::<EntityHandle>::empty()
}

/// `b` is `a` with only the listed flag possibly changed.
pub open spec fn same_but_flags(a: QueryFilter, b: QueryFilter) -> bool {
    &&& b.groups == a.groups
    &&& b.exclude_entities@ == a.exclude_entities@
}

impl QueryFilter {
    /// A filter over every group that leaves nothing out
    pub fn new() -> (r: Self)
        ensures
            is_open_filter(r),
    {
        QueryFilter {
            groups: CollisionGroups::ALL(),
            exclude_sensors: false,
            exclude_dynamic: false,
            exclude_static: false,
            exclude_fixed: false,
            exclude_kinematic: false,
            exclude_entities: Vec::new(),
        }
    }

    /// Only dynamic bodies: leaves out static, fixed and kinematic bodies
    pub fn only_dynamic() -> (r: Self)
        ensures
            r.groups == (CollisionGroups { memberships: 0xFFFF_FFFF, filter: 0xFFFF_FFFF }),
            !r.exclude_sensors,
            !r.exclude_dynamic,
            r.exclude_static,
            r.exclude_fixed,
            r.exclude_kinematic,
            r.exclude_entities@ == Seq::<EntityHandle>::empty(),
    {
        Self::new().with_exclude_static(true).with_exclude_fixed(true).with_exclude_kinematic(
            true,
        )
    }

    /// Leaves out sensors and nothing else
    pub fn exclude_sensors() -> (r: Self)
        ensures
            r.groups == (CollisionGroups { memberships: 0xFFFF_FFFF, filter: 0xFFFF_FFFF }),
            r.exclude_sensors,
            !r.exclude_dynamic,
            !r.exclude_static,
            !r.exclude_fixed,
            !r.exclude_kinematic,
            r.exclude_entities@ == Seq::<EntityHandle>::empty(),
    {
        Self::new().with_exclude_sensors(true)
    }

    /// Set the collision groups
    pub fn with_groups(self, groups: CollisionGroups) -> (r: Self)
        ensures
            r.groups == groups,
            r.exclude_sensors == self.exclude_sensors,
            r.exclude_dynamic == self.exclude_dynamic,
            r.exclude_static == self.exclude_static,
            r.exclude_fixed == self.exclude_fixed,
            r.exclude_kinematic == self.exclude_kinematic,
            r.exclude_entities@ == self.exclude_entities@,
    {
        let mut s = self;
        s.groups = groups;
        s
    }

    /// Set whether sensors are left out
    pub fn with_exclude_sensors(self, exclude: bool) -> (r: Self)
        ensures
            same_but_flags(self, r),
            r.exclude_sensors == exclude,
            r.exclude_dynamic == self.exclude_dynamic,
            r.exclude_static == self.exclude_static,
            r.exclude_fixed == self.exclude_fixed,
            r.exclude_kinematic == self.exclude_kinematic,
    {
        let mut s = self;
        s.exclude_sensors = exclude;
        s
    }

    /// Set whether dynamic bodies are left out
    pub fn with_exclude_dynamic(self, exclude: bool) -> (r: Self)
        ensures
            same_but_flags(self, r),
            r.exclude_sensors == self.exclude_sensors,
            r.exclude_dynamic == exclude,
            r.exclude_static == self.exclude_static,
            r.exclude_fixed == self.exclude_fixed,
            r.exclude_kinematic == self.exclude_kinematic,
    {
        let mut s = self;
        s.exclude_dynamic = exclude;
        s
    }

    /// Set whether static bodies are left out
    pub fn with_exclude_static(self, exclude: bool) -> (r: Self)
        ensures
            same_but_flags(self, r),
            r.exclude_sensors == self.exclude_sensors,
            r.exclude_dynamic == self.exclude_dynamic,
            r.exclude_static == exclude,
            r.exclude_fixed == self.exclude_fixed,
            r.exclude_kinematic == self.exclude_kinematic,
    {
        let mut s = self;
        s.exclude_static = exclude;
        s
    }

    /// Set whether fixed bodies are left out
    pub fn with_exclude_fixed(self, exclude: bool) -> (r: Self)
        ensures
            same_but_flags(self, r),
            r.exclude_sensors == self.exclude_sensors,
            r.exclude_dynamic == self.exclude_dynamic,
            r.exclude_static == self.exclude_static,
            r.exclude_fixed == exclude,
            r.exclude_kinematic == self.exclude_kinematic,
    {
        let mut s = self;
        s.exclude_fixed = exclude;
        s
    }

    /// Set whether kinematic bodies are left out
    pub fn with_exclude_kinematic(self, exclude: bool) -> (r: Self)
        ensures
            same_but_flags(self, r),
            r.exclude_sensors == self.exclude_sensors,
            r.exclude_dynamic == self.exclude_dynamic,
            r.exclude_static == self.exclude_static,
            r.exclude_fixed == self.exclude_fixed,
            r.exclude_kinematic == exclude,
    {
        let mut s = self;
        s.exclude_kinematic = exclude;
        s
    }

    /// Add an entity to leave out
    pub fn with_exclude(self, entity: EntityHandle) -> (r: Self)
        ensures
            r.groups == self.groups,
            r.exclude_sensors == self.exclude_sensors,
            r.exclude_dynamic == self.exclude_dynamic,
            r.exclude_static == self.exclude_static,
            r.exclude_fixed == self.exclude_fixed,
            r.exclude_kinematic == self.exclude_kinematic,
            r.exclude_entities@ == self.exclude_entities@.push(entity),
    {
        let mut s = self;
        s.exclude_entities.push(entity);
        s
    }

    /// Whether the entity is among those left out
    pub fn should_exclude(&self, entity: EntityHandle) -> (r: bool)
        ensures
            r == self.exclude_entities@.contains(entity),
    {
        let n = self.exclude_entities.len();
        let mut i: usize = 0;
        while i < n
            invariant
                n == self.exclude_entities@.len(),
                i <= n,
                forall|j: int| 0 <= j < i ==> self.exclude_entities@[j] != entity,
            decreases n - i,
        {
            let e = self.exclude_entities[i];
            if e.index == entity.index && e.generation == entity.generation {
                assert(self.exclude_entities@[i as int] == entity);
                return true;
            }
            i += 1;
        }
        false
    }
}

impl Default for QueryFilter {
    fn default() -> (r: Self)
        ensures
            is_open_filter(r),
    {
        Self::new()
    }
}

/// Query pipeline: remembers whether it has been brought up to date.
#[derive(Debug, Clone)]
pub struct QueryPipeline {
    /// Whether the pipeline has been updated
    pub updated: bool,
}

impl QueryPipeline {
    /// A pipeline that has not been updated
    pub fn new() -> (r: Self)
        ensures
            !r.updated,
    {
        QueryPipeline { updated: false }
    }

    /// Bring the pipeline up to date
    pub fn update(&mut self)
        ensures
            final(self).updated,
    {
        self.updated = true;
    }
}

/// 3D spatial query object, holding its pipeline.
#[derive(Debug, Clone)]
pub struct Query3D {
    /// The query pipeline
    pub query_pipeline: QueryPipeline,
}

impl Query3D {
    /// A query object whose pipeline has not been updated
    pub fn new() -> (r: Self)
        ensures
            !r.query_pipeline.updated,
    {
        Query3D { query_pipeline: QueryPipeline::new() }
    }

    /// Bring the pipeline up to date
    pub fn update(&mut self)
        ensures
            final(self).query_pipeline.updated,
    {
        self.query_pipeline.update();
    }
}

impl Default for Query3D {
    fn default() -> (r: Self)
        ensures
            !r.query_pipeline.updated,
    {
        Self::new()
    }
}

/// Once an entity is added to a filter's exclusions the filter leaves it
/// out, and it leaves out any other entity exactly when it did before.
pub proof fn lemma_exclude_then_excluded(f: QueryFilter, e: EntityHandle, x: EntityHandle)
    ensures
        f.exclude_entities@.push(e).contains(x) == (x == e || f.exclude_entities@.contains(x)),
{
    let s = f.exclude_entities@;
    let t = s.push(e);
    if x == e {
        assert(t[s.len() as int] == x);
    } else if s.contains(x) {
        let i = choose|i: int| 0 <= i < s.len() && s[i] == x;
        assert(t[i] == x);
    } else {
        assert forall|i: int| 0 <= i < t.len() implies t[i] != x by {
            if i < s.len() {
                assert(t[i] == s[i]);
            }
        }
    }
}

} // verus!
