use vstd::prelude::*;

use crate::face::{face_order, Face, FACE_COUNT};
use crate::grid::check_resolution;
use crate::planet::{Planet, PlanetError};

verus! {

/// The error that validation reports for a resolution that cannot be built.
pub open spec fn resolution_error(resolution: int) -> PlanetError {
    if resolution < 2 {
        PlanetError::InvalidConfig
    } else {
        PlanetError::BuildFailed
    }
}

/// A request to build all six faces of a planet from one parameter snapshot,
/// tagged with the parameter version it was taken at.
#[derive(Clone, Copy, Debug)]
pub struct BuildRequest<S> {
    pub planet: Planet<S>,
    pub version: u64,
}

/// What one regeneration pass decided for a planet.
#[derive(Clone, Copy, Debug)]
pub enum CycleAction<S> {
    /// The meshes match the parameters: nothing to do.
    Idle,
    /// A build of the current parameters is already under way.
    Waiting,
    /// The parameters cannot be built; the meshes stay as they are.
    Rejected(PlanetError),
    /// Build the six faces from this snapshot and hand the result back.
    Dispatch(BuildRequest<S>),
}

/// What became of a finished build.
#[derive(Clone, Copy, Debug, PartialEq, Eq, Structural)]
pub enum BuildOutcome {
    /// The six meshes replaced the previous ones.
    Applied,
    /// The parameters changed after the build was dispatched: the result was
    /// dropped and the planet waits for a fresh build.
    Discarded,
    /// The build of the current parameters failed; the previous meshes stay.
    Failed(PlanetError),
}

/// A planet, the meshes of its six faces, and the state that decides when
/// they are rebuilt.
///
/// Every write to the parameters bumps `version` and marks the planet dirty.
/// A build is tagged with the version it started from and is applied only if
/// no write happened since, so the meshes always come from one snapshot.
pub struct PlanetBody<S, M> {
    planet: Planet<S>,
    version: u64,
    dirty: bool,
    in_flight: Option<u64>,
    meshes: Vec<M>,
}

impl<S: Copy, M> PlanetBody<S, M> {
    /// The current parameters.
    pub closed spec fn params(&self) -> Planet<S> {
        self.planet
    }

    /// How many writes the parameters have seen.
    pub closed spec fn version_spec(&self) -> u64 {
        self.version
    }

    /// Whether the meshes may lag behind the parameters.
    pub closed spec fn dirty_spec(&self) -> bool {
        self.dirty
    }

    /// The version of the build that was last dispatched and not yet settled.
    pub closed spec fn in_flight_spec(&self) -> Option<u64> {
        self.in_flight
    }

    /// The faces' meshes in build order; empty before the first build.
    pub closed spec fn meshes_spec(&self) -> Seq<M> {
        self.meshes@
    }

    /// Either no face has been built yet, or all six have.
    pub open spec fn wf(&self) -> bool {
        self.meshes_spec().len() == 0 || self.meshes_spec().len() == FACE_COUNT
    }

    /// A planet with no meshes yet, dirty so that the first pass builds it.
    pub fn new(planet: Planet<S>) -> (r: Self)
        ensures
            r.wf(),
            r.params() == planet,
            r.version_spec() == 0,
            r.dirty_spec(),
            r.in_flight_spec() is None,
            r.meshes_spec().len() == 0,
    {
        PlanetBody { planet, version: 0, dirty: true, in_flight: None, meshes: Vec::new() }
    }

    /// The current parameters.
    pub fn planet(&self) -> (r: &Planet<S>)
        ensures
            *r == self.params(),
    {
        &self.planet
    }

    /// How many writes the parameters have seen.
    pub fn version(&self) -> (r: u64)
        ensures
            r == self.version_spec(),
    {
        self.version
    }

    /// Whether the meshes may lag behind the parameters.
    pub fn is_dirty(&self) -> (r: bool)
        ensures
            r == self.dirty_spec(),
    {
        self.dirty
    }

    /// The faces' meshes in build order; empty before the first build.
    pub fn meshes(&self) -> (r: &Vec<M>)
        ensures
            r@ == self.meshes_spec(),
    {
        &self.meshes
    }

    /// Replaces the parameters. The meshes are kept until a build of the new
    /// parameters is applied.
    pub fn set_planet(&mut self, planet: Planet<S>)
        requires
            old(self).wf(),
            old(self).version_spec() < u64::MAX,
        ensures
            final(self).wf(),
            final(self).params() == planet,
            final(self).version_spec() == old(self).version_spec() + 1,
            final(self).dirty_spec(),
            final(self).in_flight_spec() == old(self).in_flight_spec(),
            final(self).meshes_spec() == old(self).meshes_spec(),
    {
        self.planet = planet;
        self.version = self.version + 1;
        self.dirty = true;
    }

    /// Changes the number of samples per face edge, as a write of the
    /// parameters.
    pub fn set_resolution(&mut self, resolution: u32)
        requires
            old(self).wf(),
            old(self).version_spec() < u64::MAX,
        ensures
            final(self).wf(),
            final(self).params() == (Planet { resolution, ..old(self).params() }),
            final(self).version_spec() == old(self).version_spec() + 1,
            final(self).dirty_spec(),
            final(self).in_flight_spec() == old(self).in_flight_spec(),
            final(self).meshes_spec() == old(self).meshes_spec(),
    {
        let planet = Planet { resolution, ..self.planet };
        self.set_planet(planet);
    }

    /// One regeneration pass: decides whether the planet needs a build and,
    /// if so, hands out the parameter snapshot to build from.
    pub fn begin_cycle(&mut self) -> (r: CycleAction<S>)
        requires
            old(self).wf(),
        ensures
            final(self).wf(),
            final(self).params() == old(self).params(),
            final(self).version_spec() == old(self).version_spec(),
            final(self).dirty_spec() == old(self).dirty_spec(),
            final(self).meshes_spec() == old(self).meshes_spec(),
            !old(self).dirty_spec() ==> r is Idle && final(self).in_flight_spec()
                == old(self).in_flight_spec(),
            old(self).dirty_spec() && old(self).in_flight_spec() == Some(
                old(self).version_spec(),
            ) ==> r is Waiting && final(self).in_flight_spec() == old(self).in_flight_spec(),
            old(self).dirty_spec() && old(self).in_flight_spec() != Some(old(self).version_spec())
                && !old(self).params().is_buildable() ==> r == CycleAction::<S>::Rejected(
                resolution_error(old(self).params().resolution as int),
            ) && final(self).in_flight_spec() == old(self).in_flight_spec(),
            old(self).dirty_spec() && old(self).in_flight_spec() != Some(old(self).version_spec())
                && old(self).params().is_buildable() ==> r == CycleAction::Dispatch(
                (BuildRequest { planet: old(self).params(), version: old(self).version_spec() }),
            ) && final(self).in_flight_spec() == Some(old(self).version_spec()),
    {
        if !self.dirty {
            return CycleAction::Idle;
        }
        match self.in_flight {
            Some(v) => {
                if v == self.version {
                    return CycleAction::Waiting;
                }
            },
            None => {},
        }
        match check_resolution(self.planet.resolution) {
            Err(e) => CycleAction::Rejected(e),
            Ok(()) => {
                self.in_flight = Some(self.version);
                CycleAction::Dispatch(BuildRequest { planet: self.planet, version: self.version })
            },
        }
    }

    /// Settles a build that was dispatched at `version`: its six meshes, in
    /// build order, replace the current ones only if the parameters have not
    /// been written since.
    pub fn finish_build(&mut self, version: u64, result: Result<Vec<M>, PlanetError>) -> (r:
        BuildOutcome)
        requires
            old(self).wf(),
        ensures
            final(self).wf(),
            final(self).params() == old(self).params(),
            final(self).version_spec() == old(self).version_spec(),
            version != old(self).version_spec() ==> r == BuildOutcome::Discarded
                && final(self).dirty_spec() == old(self).dirty_spec()
                && final(self).in_flight_spec() == old(self).in_flight_spec()
                && final(self).meshes_spec() == old(self).meshes_spec(),
            version == old(self).version_spec() ==> final(self).in_flight_spec() is None,
            version == old(self).version_spec() && result is Ok && result->Ok_0.len()
                == FACE_COUNT ==> r == BuildOutcome::Applied && !final(self).dirty_spec()
                && final(self).meshes_spec() == result->Ok_0@,
            version == old(self).version_spec() && result is Ok && result->Ok_0.len()
                != FACE_COUNT ==> r == BuildOutcome::Failed(PlanetError::BuildFailed)
                && final(self).dirty_spec() == old(self).dirty_spec()
                && final(self).meshes_spec() == old(self).meshes_spec(),
            version == old(self).version_spec() && result is Err ==> r == BuildOutcome::Failed(
                result->Err_0,
            ) && final(self).dirty_spec() == old(self).dirty_spec()
                && final(self).meshes_spec() == old(self).meshes_spec(),
    {
        if version != self.version {
            return BuildOutcome::Discarded;
        }
        self.in_flight = None;
        match result {
            Ok(meshes) => {
                if meshes.len() == FACE_COUNT {
                    self.meshes = meshes;
                    self.dirty = false;
                    BuildOutcome::Applied
                } else {
                    BuildOutcome::Failed(PlanetError::BuildFailed)
                }
            },
            Err(e) => BuildOutcome::Failed(e),
        }
    }
    /// One synchronous regeneration pass: if the planet is dirty and its
    /// parameters can be built, builds the six faces from one snapshot with
    /// `build`, in build order, and puts the results in place of the old
    /// meshes. Returns whether the meshes were replaced.
    pub fn update_planet_on_resolution_change<F: Fn(Planet<S>, Face) -> M>(
        &mut self,
        build: F,
    ) -> (r: Result<bool, PlanetError>)
        requires
            old(self).wf(),
            forall|p: Planet<S>, f: Face| #[trigger] build.requires((p, f)),
        ensures
            final(self).wf(),
            final(self).params() == old(self).params(),
            final(self).version_spec() == old(self).version_spec(),
            !old(self).dirty_spec() ==> r == Ok::<bool, PlanetError>(false)
                && *final(self) == *old(self),
            old(self).dirty_spec() && !old(self).params().is_buildable()
                ==> r == Err::<bool, PlanetError>(
                resolution_error(old(self).params().resolution as int),
            ) && *final(self) == *old(self),
            old(self).dirty_spec() && old(self).params().is_buildable()
                ==> r == Ok::<bool, PlanetError>(true)
                && !final(self).dirty_spec()
                && final(self).in_flight_spec() is None
                && final(self).meshes_spec().len() == FACE_COUNT
                && forall|k: int|
                0 <= k < FACE_COUNT ==> build.ensures(
                    (old(self).params(), #[trigger] face_order()[k]),
                    final(self).meshes_spec()[k],
                ),
    {
        if !self.dirty {
            return Ok(false);
        }
        match check_resolution(self.planet.resolution) {
            Err(e) => Err(e),
            Ok(()) => {
                let snapshot = self.planet;
                let faces = Face::all();
                let mut meshes: Vec<M> = Vec::new();
                let mut k: usize = 0;
                while k < FACE_COUNT
                    invariant
                        faces@ == face_order(),
                        snapshot == self.params(),
                        forall|p: Planet<S>, f: Face| #[trigger] build.requires((p, f)),
                        0 <= k <= FACE_COUNT,
                        meshes.len() == k,
                        forall|j: int|
                            0 <= j < k ==> build.ensures(
                                (snapshot, #[trigger] face_order()[j]),
                                meshes[j],
                            ),
                    decreases FACE_COUNT - k,
                {
                    let mesh = build(snapshot, faces[k]);
                    meshes.push(mesh);
                    k = k + 1;
                }
                self.meshes = meshes;
                self.dirty = false;
                self.in_flight = None;
                Ok(true)
            },
        }
    }
}

} // verus!
